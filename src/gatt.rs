use vstd::prelude::*;

verus! {

/// A characteristic as discovered: its identifier and whether it may be read.
#[derive(Clone, Copy, Debug, PartialEq, Eq, Structural)]
pub struct CharacteristicInfo {
    pub uuid: u128,
    pub readable: bool,
}

/// A service as discovered, with its characteristics in the stack's order.
#[derive(Clone, Debug)]
pub struct ServiceInfo {
    pub uuid: u128,
    pub characteristics: Vec<CharacteristicInfo>,
}

/// Characteristic `j` of service `i` exists and carries `target`.
pub open spec fn is_match(services: Seq<ServiceInfo>, target: u128, i: int, j: int) -> bool {
    &&& 0 <= i < services.len()
    &&& 0 <= j < services[i].characteristics@.len()
    &&& services[i].characteristics@[j].uuid == target
}

/// Position `(i, j)` comes before `(k, l)` in enumeration order.
pub open spec fn precedes(i: int, j: int, k: int, l: int) -> bool {
    i < k || (i == k && j < l)
}

/// `(i, j)` is the match met first when walking services, then their characteristics.
pub open spec fn is_first_match(services: Seq<ServiceInfo>, target: u128, i: int, j: int) -> bool {
    &&& is_match(services, target, i, j)
    &&& forall|k: int, l: int| #[trigger] is_match(services, target, k, l) ==> !precedes(k, l, i, j)
}

pub open spec fn has_match(services: Seq<ServiceInfo>, target: u128) -> bool {
    exists|i: int, j: int| #[trigger] is_match(services, target, i, j)
}

/// The characteristic that an operation on `target` acts upon: the first match, if any.
pub open spec fn first_match(services: Seq<ServiceInfo>, target: u128) -> Option<(int, int)> {
    if exists|i: int, j: int| #[trigger] is_first_match(services, target, i, j) {
        let (i, j) = choose|i: int, j: int| #[trigger] is_first_match(services, target, i, j);
        Some((i, j))
    } else {
        None
    }
}

/// The characteristic that a read of `target` fetches: the first match, if it is readable.
pub open spec fn read_choice(services: Seq<ServiceInfo>, target: u128) -> Option<(int, int)> {
    match first_match(services, target) {
        Some((i, j)) => if services[i].characteristics@[j].readable {
            Some((i, j))
        } else {
            None
        },
        None => None,
    }
}

pub open spec fn as_positions(r: Option<(usize, usize)>) -> Option<(int, int)> {
    match r {
        Some((i, j)) => Some((i as int, j as int)),
        None => None,
    }
}

/// At most one position is the first match.
pub proof fn lemma_first_match_unique(
    services: Seq<ServiceInfo>,
    target: u128,
    i: int,
    j: int,
    k: int,
    l: int,
)
    requires
        is_first_match(services, target, i, j),
        is_first_match(services, target, k, l),
    ensures
        i == k && j == l,
{
    assert(!precedes(k, l, i, j));
    assert(!precedes(i, j, k, l));
}

/// Where a match exists, `first_match` names the first one; else it is `None`.
pub proof fn lemma_first_match(services: Seq<ServiceInfo>, target: u128)
    ensures
        first_match(services, target) is Some <==> has_match(services, target),
        first_match(services, target) matches Some((i, j)) ==> is_first_match(
            services,
            target,
            i,
            j,
        ),
{
    if has_match(services, target) {
        let (i0, j0) = choose|i: int, j: int| #[trigger] is_match(services, target, i, j);
        lemma_earliest_exists(services, target, i0, j0);
    }
}

/// Below any match lies a first one.
proof fn lemma_earliest_exists(services: Seq<ServiceInfo>, target: u128, i: int, j: int)
    requires
        is_match(services, target, i, j),
    ensures
        exists|k: int, l: int| #[trigger] is_first_match(services, target, k, l),
    decreases i, j,
{
    if exists|k: int, l: int| #[trigger]
        is_match(services, target, k, l) && precedes(k, l, i, j) {
        let (k, l) = choose|k: int, l: int| #[trigger]
            is_match(services, target, k, l) && precedes(k, l, i, j);
        lemma_earliest_exists(services, target, k, l);
    } else {
        assert(is_first_match(services, target, i, j));
    }
}

/// Finds the characteristic carrying `target`, walking services and then their
/// characteristics in the order the stack listed them; the first match wins.
pub fn locate(services: &Vec<ServiceInfo>, target: u128) -> (r: Option<(usize, usize)>)
    ensures
        as_positions(r) == first_match(services@, target),
        r is None <==> !has_match(services@, target),
{
    let mut i: usize = 0;
    while i < services.len()
        invariant
            0 <= i <= services@.len(),
            forall|k: int, l: int| #[trigger]
                is_match(services@, target, k, l) ==> k >= i,
        decreases services@.len() - i,
    {
        let chars = &services[i].characteristics;
        let mut j: usize = 0;
        while j < chars.len()
            invariant
                0 <= i < services@.len(),
                chars@ == services@[i as int].characteristics@,
                0 <= j <= chars@.len(),
                forall|k: int, l: int| #[trigger]
                    is_match(services@, target, k, l) ==> k > i || (k == i && l >= j),
            decreases chars@.len() - j,
        {
            if chars[j].uuid == target {
                proof {
                    assert(is_match(services@, target, i as int, j as int));
                    assert(is_first_match(services@, target, i as int, j as int));
                    lemma_first_match(services@, target);
                    let (a, b) = first_match(services@, target)->Some_0;
                    lemma_first_match_unique(services@, target, i as int, j as int, a, b);
                }
                return Some((i, j));
            }
            j = j + 1;
        }
        i = i + 1;
    }
    proof {
        lemma_first_match(services@, target);
    }
    None
}

/// The characteristic that a read of `target` fetches: the first match, and
/// only where its readable flag is set. `None` means no read takes place.
pub fn read_target(services: &Vec<ServiceInfo>, target: u128) -> (r: Option<(usize, usize)>)
    ensures
        as_positions(r) == read_choice(services@, target),
        r matches Some((i, j)) ==> is_first_match(services@, target, i as int, j as int)
            && services@[i as int].characteristics@[j as int].readable,
{
    proof {
        lemma_first_match(services@, target);
    }
    match locate(services, target) {
        Some((i, j)) => {
            if services[i].characteristics[j].readable {
                Some((i, j))
            } else {
                None
            }
        },
        None => None,
    }
}

/// The characteristic that a write to `target` goes to: the first match,
/// whatever its flags. `None` means no write takes place.
pub fn write_target(services: &Vec<ServiceInfo>, target: u128) -> (r: Option<(usize, usize)>)
    ensures
        as_positions(r) == first_match(services@, target),
        r matches Some((i, j)) ==> is_first_match(services@, target, i as int, j as int),
{
    proof {
        lemma_first_match(services@, target);
    }
    locate(services, target)
}

/// A target carried by exactly one characteristic: a read fetches that
/// characteristic when it is readable and reads nothing when it is not, and a
/// write goes to it.
pub proof fn single_match_is_acted_upon(services: Seq<ServiceInfo>, target: u128, i: int, j: int)
    requires
        is_match(services, target, i, j),
        forall|k: int, l: int| #[trigger] is_match(services, target, k, l) ==> k == i && l == j,
    ensures
        first_match(services, target) == Some((i, j)),
        services[i].characteristics@[j].readable ==> read_choice(services, target) == Some((i, j)),
        !services[i].characteristics@[j].readable ==> read_choice(services, target) is None,
{
    assert(is_first_match(services, target, i, j));
    lemma_first_match(services, target);
    let (a, b) = first_match(services, target)->Some_0;
    lemma_first_match_unique(services, target, i, j, a, b);
}

/// A target that no characteristic carries: neither a read nor a write acts
/// on anything.
pub proof fn absent_target_is_left_alone(services: Seq<ServiceInfo>, target: u128)
    requires
        forall|k: int, l: int| !(#[trigger] is_match(services, target, k, l)),
    ensures
        first_match(services, target) is None,
        read_choice(services, target) is None,
{
    lemma_first_match(services, target);
}

} // verus!
