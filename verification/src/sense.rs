//! Sensor readings: which inputs of a chip's feature make a reading, how
//! far a reading lies above its maximum, and the worst of a tick's
//! readings. Temperatures are in thousandths of a degree.

use vstd::prelude::*;
use vstd::string::StringSliceAdditionalSpecFns;
use crate::aggregator::{highest, is_max_of, lemma_highest_is_max};

verus! {

/// What an input of a feature is to the regulator, by its name.
#[derive(Debug, Clone, Copy, PartialEq, Eq, Structural)]
pub enum Role {
    /// Its name ends in `_max`: the rated maximum.
    Max,
    /// Its name ends in `_input`: the live value.
    Input,
    /// Anything else.
    Other,
}

/// The bytes of `_max`.
pub open spec fn max_suffix() -> Seq<u8> {
    seq![0x5fu8, 0x6du8, 0x61u8, 0x78u8]
}

/// The bytes of `_input`.
pub open spec fn input_suffix() -> Seq<u8> {
    seq![0x5fu8, 0x69u8, 0x6eu8, 0x70u8, 0x75u8, 0x74u8]
}

/// `name` ends with `suffix`.
pub open spec fn ends_with(name: Seq<u8>, suffix: Seq<u8>) -> bool {
    name.len() >= suffix.len() && name.subrange(name.len() - suffix.len(), name.len() as int)
        == suffix
}

/// The role that a name gives an input.
pub open spec fn role_spec(name: Seq<u8>) -> Role {
    if ends_with(name, max_suffix()) {
        Role::Max
    } else if ends_with(name, input_suffix()) {
        Role::Input
    } else {
        Role::Other
    }
}

/// `at` is the last index of `role` in `roles`, or `None` where there is
/// none.
pub open spec fn is_last_of(at: Option<usize>, role: Role, roles: Seq<Role>) -> bool {
    match at {
        Some(i) => {
            &&& i < roles.len()
            &&& roles[i as int] == role
            &&& forall|k: int| i < k < roles.len() ==> roles[k] != role
        },
        None => forall|k: int| 0 <= k < roles.len() ==> roles[k] != role,
    }
}

fn has_suffix(name: &[u8], suffix: &[u8]) -> (b: bool)
    ensures
        b == ends_with(name@, suffix@),
{
    if name.len() < suffix.len() {
        return false;
    }
    let start: usize = name.len() - suffix.len();
    let mut i: usize = 0;
    while i < suffix.len()
        invariant
            i <= suffix.len(),
            start + suffix.len() == name.len(),
            forall|k: int| 0 <= k < i ==> name[start + k] == suffix[k],
        decreases suffix.len() - i,
    {
        if name[start + i] != suffix[i] {
            assert(name@.subrange(start as int, name.len() as int)[i as int] != suffix@[i as int]);
            return false;
        }
        i += 1;
    }
    assert(name@.subrange(start as int, name.len() as int) =~= suffix@);
    true
}

/// The role of the input called `name`.
pub fn role_of(name: &str) -> (role: Role)
    ensures
        role == role_spec(name.spec_bytes()),
{
    let bytes = name.as_bytes();
    let max: [u8; 4] = [0x5f, 0x6d, 0x61, 0x78];
    let input: [u8; 6] = [0x5f, 0x69, 0x6e, 0x70, 0x75, 0x74];
    assert(max@ =~= max_suffix());
    assert(input@ =~= input_suffix());
    if has_suffix(bytes, max.as_slice()) {
        Role::Max
    } else if has_suffix(bytes, input.as_slice()) {
        Role::Input
    } else {
        Role::Other
    }
}

/// Picks, among the inputs of one feature, the one that gives its maximum
/// and the one that gives its live value: of each role the last. A feature
/// that lacks either makes no reading.
pub fn pick_inputs(roles: &Vec<Role>) -> (picked: Option<(usize, usize)>)
    ensures
        picked matches Some(p) ==> is_last_of(Some(p.0), Role::Max, roles@) && is_last_of(
            Some(p.1),
            Role::Input,
            roles@,
        ),
        picked is None ==> is_last_of(None, Role::Max, roles@) || is_last_of(
            None,
            Role::Input,
            roles@,
        ),
{
    let mut max: Option<usize> = None;
    let mut input: Option<usize> = None;
    let mut i: usize = 0;
    while i < roles.len()
        invariant
            i <= roles.len(),
            is_last_of(max, Role::Max, roles@.subrange(0, i as int)),
            is_last_of(input, Role::Input, roles@.subrange(0, i as int)),
        decreases roles.len() - i,
    {
        match roles[i] {
            Role::Max => {
                max = Some(i);
            },
            Role::Input => {
                input = Some(i);
            },
            Role::Other => {},
        }
        i += 1;
    }
    assert(roles@.subrange(0, i as int) =~= roles@);
    match (max, input) {
        (Some(m), Some(n)) => Some((m, n)),
        _ => None,
    }
}

/// One reading: a live value set against its rated maximum.
#[derive(Debug, Clone, Copy, PartialEq, Eq, Structural)]
pub struct Sense {
    /// The rated maximum.
    pub max: i32,
}

impl Sense {
    /// How far `current` lies above the maximum; negative below it.
    pub fn excess(&self, current: i32) -> (e: i64)
        ensures
            e == current - self.max,
    {
        current as i64 - self.max as i64
    }
}

/// The worst excess among a tick's readings.
pub fn worst_excess(readings: &Vec<i64>) -> (worst: i64)
    requires
        readings.len() > 0,
    ensures
        worst == highest(readings@),
{
    let mut worst: i64 = readings[0];
    let mut at: usize = 0;
    let mut i: usize = 1;
    while i < readings.len()
        invariant
            1 <= i <= readings.len(),
            at < i,
            worst == readings[at as int],
            forall|k: int| 0 <= k < i ==> readings[k] <= worst,
        decreases readings.len() - i,
    {
        if readings[i] > worst {
            worst = readings[i];
            at = i;
        }
        i += 1;
    }
    proof {
        assert(is_max_of(worst, readings@));
        lemma_highest_is_max(readings@);
    }
    worst
}

} // verus!
