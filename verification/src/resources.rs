//! Whether this node can serve a model that needs certain resources.

use crate::message::{self, ModelRes, ModelResView};
use vstd::prelude::*;

verus! {

/// Whether the entry `have` is enough for `wanted`. Only power and speed count.
pub open spec fn suffices(have: ModelResView, wanted: ModelResView) -> bool {
    have.speed >= wanted.speed && have.power >= wanted.power
}

/// Whether every entry of `local` is enough for `wanted`.
pub open spec fn all_suffice(local: Seq<ModelResView>, wanted: ModelResView) -> bool {
    forall|i: int| 0 <= i < local.len() ==> suffices(#[trigger] local[i], wanted)
}

/// What is known of a request and of the local resources: the request when it could be read, and
/// the resources or the reason why they could not be.
pub open spec fn available(
    wanted: Option<ModelResView>,
    local: Result<Seq<ModelResView>, Seq<char>>,
) -> bool {
    match (wanted, local) {
        (Some(w), Ok(l)) => all_suffice(l, w),
        _ => true,
    }
}

/// What a request that may have been read says.
pub open spec fn wanted_view(wanted: Option<ModelRes>) -> Option<ModelResView> {
    match wanted {
        Some(w) => Some(w@),
        None => None,
    }
}

/// What the outcome of reading the local resources says.
pub open spec fn outcome_view(local: Result<Vec<ModelRes>, String>) -> Result<
    Seq<ModelResView>,
    Seq<char>,
> {
    match local {
        Ok(l) => Ok(message::resources_view(l@)),
        Err(e) => Err(e@),
    }
}

/// Whether the node takes on a request: every local entry has at least the speed and the power
/// that it needs. A request that could not be read, and resources that could not be, rule nothing
/// out.
pub fn resources_available_for_request(
    wanted: &Option<ModelRes>,
    local: &Result<Vec<ModelRes>, String>,
) -> (rval: bool)
    ensures
        rval == available(wanted_view(*wanted), outcome_view(*local)),
        rval == (match (wanted, local) {
            (Some(w), Ok(l)) => forall|i: int|
                0 <= i < l@.len() ==> (#[trigger] l@[i]).speed >= w.speed && l@[i].power
                    >= w.power,
            _ => true,
        }),
{
    let mut rval = true;
    if let Some(req) = wanted {
        match local {
            Ok(v) => {
                let ghost entries = message::resources_view(v@);
                for i in 0..v.len()
                    invariant
                        entries == message::resources_view(v@),
                        rval == (forall|j: int|
                            0 <= j < i ==> suffices(#[trigger] entries[j], req@)),
                {
                    let r = &v[i];
                    assert(entries[i as int] == r@);
                    if r.speed < req.speed {
                        rval = false;
                    }
                    if r.power < req.power {
                        rval = false;
                    }
                    assert(!suffices(r@, req@) ==> !rval);
                }
                assert forall|i: int| 0 <= i < v@.len() implies suffices(entries[i], req@) == ((
                #[trigger] v@[i]).speed >= req.speed && v@[i].power >= req.power) by {
                    assert(entries[i] == v@[i]@);
                }
                assert forall|i: int| 0 <= i < entries.len() && rval implies v@[i].speed
                    >= req.speed && v@[i].power >= req.power by {
                    assert(suffices(entries[i], req@));
                }
            },
            Err(_) => {},
        }
    }
    rval
}

/// A node with nothing listed takes on every request.
pub proof fn lemma_nothing_listed(wanted: ModelResView)
    ensures
        available(Some(wanted), Ok(seq![])),
{
}

/// A node takes on a request exactly when each half of its list would: neither the order of the
/// entries nor their number counts, and a further entry never makes a request acceptable.
pub proof fn lemma_each_entry_decides(
    a: Seq<ModelResView>,
    b: Seq<ModelResView>,
    wanted: ModelResView,
)
    ensures
        available(Some(wanted), Ok(a + b)) == (available(Some(wanted), Ok(a)) && available(
            Some(wanted),
            Ok(b),
        )),
        available(Some(wanted), Ok(a + b)) == available(Some(wanted), Ok(b + a)),
{
    assert forall|x: Seq<ModelResView>, y: Seq<ModelResView>| #[trigger]
        all_suffice(x + y, wanted) == (all_suffice(x, wanted) && all_suffice(y, wanted)) by {
        if all_suffice(x + y, wanted) {
            assert forall|i: int| 0 <= i < x.len() implies suffices(#[trigger] x[i], wanted) by {
                assert((x + y)[i] == x[i]);
            }
            assert forall|i: int| 0 <= i < y.len() implies suffices(#[trigger] y[i], wanted) by {
                assert((x + y)[x.len() + i] == y[i]);
            }
        }
    }
    assert(all_suffice(a + b, wanted) == (all_suffice(a, wanted) && all_suffice(b, wanted)));
    assert(all_suffice(b + a, wanted) == (all_suffice(b, wanted) && all_suffice(a, wanted)));
}

/// A node that takes on a request takes on every request that needs no more power and speed.
pub proof fn lemma_less_is_available(
    wanted: ModelResView,
    less: ModelResView,
    local: Result<Seq<ModelResView>, Seq<char>>,
)
    requires
        less.power <= wanted.power,
        less.speed <= wanted.speed,
        available(Some(wanted), local),
    ensures
        available(Some(less), local),
{
}

/// Neither the identifier nor the hardware of an entry or of a request decides anything.
pub proof fn lemma_only_power_and_speed_count(
    wanted: ModelResView,
    other_wanted: ModelResView,
    local: Seq<ModelResView>,
    other_local: Seq<ModelResView>,
)
    requires
        wanted.power == other_wanted.power,
        wanted.speed == other_wanted.speed,
        local.len() == other_local.len(),
        forall|i: int|
            0 <= i < local.len() ==> (#[trigger] local[i]).power == (#[trigger] other_local[i]).power
                && local[i].speed == other_local[i].speed,
    ensures
        available(Some(wanted), Ok(local)) == available(Some(other_wanted), Ok(other_local)),
{
    assert forall|i: int| 0 <= i < local.len() implies suffices(#[trigger] local[i], wanted)
        == suffices(other_local[i], other_wanted) by {
        assert(local[i].power == other_local[i].power);
    }
    if all_suffice(local, wanted) {
        assert forall|i: int| 0 <= i < other_local.len() implies suffices(
            #[trigger] other_local[i],
            other_wanted,
        ) by {
            assert(suffices(local[i], wanted));
        }
    }
}

/// One entry that is too slow, or has too little power, rules a request out, whatever the others
/// have and however much of the other it has. Where every entry has at least the speed and at least
/// the power that the request needs, the node takes it on.
pub proof fn lemma_speed_and_power_each_decide(wanted: ModelResView, local: Seq<ModelResView>)
    ensures
        (exists|i: int| 0 <= i < local.len() && (#[trigger] local[i]).speed < wanted.speed)
            ==> !available(Some(wanted), Ok(local)),
        (exists|i: int| 0 <= i < local.len() && (#[trigger] local[i]).power < wanted.power)
            ==> !available(Some(wanted), Ok(local)),
        (forall|i: int|
            0 <= i < local.len() ==> (#[trigger] local[i]).speed >= wanted.speed && local[i].power
                >= wanted.power) ==> available(Some(wanted), Ok(local)),
{
    if exists|i: int| 0 <= i < local.len() && (#[trigger] local[i]).speed < wanted.speed {
        let i = choose|i: int| 0 <= i < local.len() && (#[trigger] local[i]).speed < wanted.speed;
        assert(!suffices(local[i], wanted));
    }
    if exists|i: int| 0 <= i < local.len() && (#[trigger] local[i]).power < wanted.power {
        let i = choose|i: int| 0 <= i < local.len() && (#[trigger] local[i]).power < wanted.power;
        assert(!suffices(local[i], wanted));
    }
}

/// Nothing rules out a request that could not be read, nor one for which the resources could not.
pub proof fn lemma_what_is_unread_rules_nothing_out(
    wanted: ModelResView,
    local: Result<Seq<ModelResView>, Seq<char>>,
    e: Seq<char>,
)
    ensures
        available(None, local),
        available(Some(wanted), Err(e)),
{
}

/// A request that may have been read says what it says, and an outcome says the resources, or why
/// there are none.
pub proof fn lemma_outcome_says(wanted: Option<ModelRes>, local: Result<Vec<ModelRes>, String>)
    ensures
        wanted matches Some(w) ==> wanted_view(wanted) == Some(w@),
        wanted is None ==> wanted_view(wanted) is None,
        local matches Ok(l) ==> outcome_view(local) == Ok::<_, Seq<char>>(
            l@.map_values(|r: ModelRes| r@),
        ),
        local matches Err(e) ==> outcome_view(local) == Err::<Seq<ModelResView>, _>(e@),
{
    if let Ok(l) = local {
        assert(message::resources_view(l@) =~= l@.map_values(|r: ModelRes| r@));
    }
}

} // verus!
