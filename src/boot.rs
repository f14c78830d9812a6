//! Decisions of the boot sequence, and the format of its status lines.
use vstd::prelude::*;
use vstd::string::StringExecFns;

verus! {

/// What a CPU does after reset.
#[derive(Clone, Copy, Debug, PartialEq, Eq, Structural)]
pub enum BootRole {
    /// Core 0: builds the memory map and the tables, then drops to EL1.
    Master,
    /// Every other core: programs its MMU from the master's tables and parks.
    Slave,
}

/// How the master CPU leaves for EL1 once the MMU is on.
#[derive(Clone, Copy, Debug, PartialEq, Eq, Structural)]
pub enum MasterPath {
    /// From EL3: PSCI and the secure context first.
    FromEl3,
    /// From EL2, with a warning that PSCI is disabled.
    FromEl2,
}

/// The role of the CPU with index `core_pos`.
pub fn entry(core_pos: u64) -> (r: BootRole)
    ensures
        r == (if core_pos == 0 {
            BootRole::Master
        } else {
            BootRole::Slave
        }),
{
    if core_pos == 0 {
        BootRole::Master
    } else {
        BootRole::Slave
    }
}

/// The master's way down to EL1 from exception level `el`; none below EL2,
/// where boot cannot go on.
pub fn init_master(el: u64) -> (r: Option<MasterPath>)
    ensures
        el == 3 ==> r == Some(MasterPath::FromEl3),
        el == 2 ==> r == Some(MasterPath::FromEl2),
        el != 2 && el != 3 ==> r.is_none(),
{
    if el == 3 {
        Some(MasterPath::FromEl3)
    } else if el == 2 {
        Some(MasterPath::FromEl2)
    } else {
        None
    }
}

/// Number of spaces that pad a key of `key_len` bytes to 12.
pub open spec fn pad_len(key_len: nat) -> nat {
    if key_len < 12 {
        (12 - key_len) as nat
    } else {
        0
    }
}

/// A status line: the key in brackets, padded to 12 bytes, then the value.
pub open spec fn msg_line(key: Seq<char>, key_len: nat, val: Seq<char>) -> Seq<char> {
    seq!['['] + key + Seq::new(pad_len(key_len), |i: int| ' ') + seq![']', ' '] + val + seq!['\n']
}

/// The status line `[key         ] val`.
pub fn print_msg(key: &str, val: &str) -> (r: String)
    ensures
        r@ == msg_line(key@, key.len() as nat, val@),
{
    proof {
        reveal_strlit("[");
        reveal_strlit(" ");
        reveal_strlit("] ");
        reveal_strlit("\n");
    }
    let mut r = String::from_str("[");
    r.append(key);
    let ghost head = r@;
    let mut i: usize = key.len();
    while i < 12
        invariant
            key.len() <= i,
            i <= 12 || i == key.len(),
            r@ == head + Seq::new((i - key.len()) as nat, |j: int| ' '),
        decreases 12 - i,
    {
        r.append(" ");
        proof {
            reveal_strlit(" ");
        }
        assert(r@ =~= head + Seq::new((i + 1 - key.len()) as nat, |j: int| ' '));
        i = i + 1;
    }
    assert(r@ =~= head + Seq::new(pad_len(key.len() as nat), |j: int| ' '));
    r.append("] ");
    r.append(val);
    r.append("\n");
    assert(r@ =~= msg_line(key@, key.len() as nat, val@));
    r
}

} // verus!
