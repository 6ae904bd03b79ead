//! Asset groups: who belongs to a group, and who borrows it.

use crate::entity::{AssetGroup, AssetGroupView, Timestamp};
use crate::error::{yields, RegistryError};
use crate::identifier::Identifier;
use crate::snapshot::{fetch, found, Snapshot, SnapshotView};
use vstd::prelude::*;

verus! {

/// The operator that controls a group in place of its owner, if any. A
/// group whose delegatee is its own owner is not lent to anyone.
pub open spec fn active_delegatee(g: AssetGroupView) -> Option<Identifier> {
    match g.delegatee {
        Some(d) => if d != g.owner {
            Some(d)
        } else {
            None
        },
        None => None,
    }
}

/// A list of members after `id` was put in: a member is not put in twice.
pub open spec fn with_member(members: Seq<Identifier>, id: Identifier) -> Seq<Identifier> {
    if members.contains(id) {
        members
    } else {
        members.push(id)
    }
}

/// A list of members after each of `ids` was put in, one after the other.
pub open spec fn with_members(members: Seq<Identifier>, ids: Seq<Identifier>) -> Seq<Identifier>
    decreases ids.len(),
{
    if ids.len() == 0 {
        members
    } else {
        with_member(with_members(members, ids.drop_last()), ids.last())
    }
}

/// The test that every identifier but `id` passes.
pub open spec fn other_than(id: Identifier) -> spec_fn(Identifier) -> bool {
    |m: Identifier| m != id
}

/// A list of members after `id` was taken out.
pub open spec fn without_member(members: Seq<Identifier>, id: Identifier) -> Seq<Identifier> {
    members.filter(other_than(id))
}

/// A group after its owner, `requesting`, asked to lend it to `operator`, or
/// to take it back where `operator` is `None`. Nobody but the owner may ask.
/// To lend a group to its own owner changes nothing.
pub open spec fn delegated(
    g: AssetGroupView,
    operator: Option<Identifier>,
    requesting: Identifier,
    now: Timestamp,
) -> Result<AssetGroupView, RegistryError> {
    if requesting != g.owner {
        Err(RegistryError::Forbidden)
    } else if operator == Some(g.owner) {
        Ok(g)
    } else {
        Ok(AssetGroupView { delegatee: operator, updated_at: Some(now), ..g })
    }
}

/// Whether an identifier is in a list.
pub fn contains_id(ids: &Vec<Identifier>, id: Identifier) -> (r: bool)
    ensures
        r == ids@.contains(id),
{
    let mut i: usize = 0;
    while i < ids.len()
        invariant
            i <= ids.len(),
            forall|j: int| 0 <= j < i ==> ids@[j] != id,
        decreases ids.len() - i,
    {
        if ids[i] == id {
            return true;
        }
        i = i + 1;
    }
    false
}

/// Puts each of `ids` into a list of members, one after the other.
pub fn add_members(members: &mut Vec<Identifier>, ids: &Vec<Identifier>)
    ensures
        final(members)@ == with_members(old(members)@, ids@),
{
    let mut i: usize = 0;
    while i < ids.len()
        invariant
            i <= ids.len(),
            members@ == with_members(old(members)@, ids@.take(i as int)),
        decreases ids.len() - i,
    {
        let id = ids[i];
        if !contains_id(members, id) {
            members.push(id);
        }
        proof {
            assert(ids@.take(i + 1).drop_last() =~= ids@.take(i as int));
            assert(ids@.take(i + 1).last() == id);
        }
        i = i + 1;
    }
    assert(ids@.take(ids.len() as int) =~= ids@);
}

/// A list of members without `id`.
pub fn remove_member(members: &Vec<Identifier>, id: Identifier) -> (r: Vec<Identifier>)
    ensures
        r@ == without_member(members@, id),
{
    let mut out: Vec<Identifier> = Vec::new();
    let ghost keep = other_than(id);
    let mut i: usize = 0;
    while i < members.len()
        invariant
            i <= members.len(),
            keep == other_than(id),
            out@ == members@.take(i as int).filter(keep),
        decreases members.len() - i,
    {
        proof {
            members@.take(i as int).lemma_filter_push(members@[i as int], keep);
            assert(members@.take(i + 1) =~= members@.take(i as int).push(members@[i as int]));
        }
        if members[i] != id {
            out.push(members[i]);
        }
        i = i + 1;
    }
    assert(members@.take(members.len() as int) =~= members@);
    out
}

impl AssetGroup {
    /// The operator that controls the group in place of its owner, if any.
    pub fn active_delegatee(&self) -> (r: Option<Identifier>)
        ensures
            r == active_delegatee(self@),
    {
        match self.delegatee {
            Some(d) => if d != self.owner {
                Some(d)
            } else {
                None
            },
            None => None,
        }
    }

    /// Whether an asset is a member of the group.
    pub fn contains(&self, asset: Identifier) -> (r: bool)
        ensures
            r == self@.assets.contains(asset),
    {
        contains_id(&self.assets, asset)
    }

    /// Puts an asset into the group. An asset that is a member already stays
    /// where it is.
    pub fn add_member(&mut self, asset: Identifier)
        ensures
            final(self)@ == (AssetGroupView {
                assets: with_member(old(self)@.assets, asset),
                ..old(self)@
            }),
    {
        if !contains_id(&self.assets, asset) {
            self.assets.push(asset);
        }
    }

    /// Lends the group to `operator`, or takes it back where `operator` is
    /// `None`, on behalf of `requesting`.
    pub fn set_delegatee(
        self,
        operator: Option<Identifier>,
        requesting: Identifier,
        now: Timestamp,
    ) -> (r: Result<AssetGroup, RegistryError>)
        ensures
            yields(r, delegated(self@, operator, requesting, now)),
            requesting != self.owner ==> (r matches Err(e) && e == RegistryError::Forbidden),
    {
        if requesting != self.owner {
            return Err(RegistryError::Forbidden);
        }
        match operator {
            Some(d) => {
                if d == self.owner {
                    return Ok(self);
                }
            },
            None => {},
        }
        let AssetGroup { id, name, owner, created_at, updated_at: _, delegatee: _, assets } = self;
        Ok(
            AssetGroup {
                id,
                name,
                owner,
                created_at,
                updated_at: Some(now),
                delegatee: operator,
                assets,
            },
        )
    }
}

/// The members of a group, as its record lists them.
pub open spec fn expanded(s: SnapshotView, group_id: Identifier) -> Result<
    Seq<Identifier>,
    RegistryError,
> {
    match found::<AssetGroup>(s.groups, group_id) {
        Ok(g) => Ok(g.assets),
        Err(e) => Err(e),
    }
}

/// Lists the members of a group, in the order of the group's record.
pub fn expand_group(snapshot: &Snapshot, group_id: Identifier) -> (r: Result<
    Vec<Identifier>,
    RegistryError,
>)
    ensures
        yields(r, expanded(snapshot@, group_id)),
{
    match fetch(&snapshot.groups, group_id) {
        Ok(group) => Ok(group.assets),
        Err(e) => Err(e),
    }
}

/// The record of a group after a request to lend it or to take it back.
pub open spec fn delegation_set(
    s: SnapshotView,
    group_id: Identifier,
    operator: Option<Identifier>,
    requesting: Identifier,
    now: Timestamp,
) -> Result<AssetGroupView, RegistryError> {
    match found::<AssetGroup>(s.groups, group_id) {
        Ok(g) => delegated(g, operator, requesting, now),
        Err(e) => Err(e),
    }
}

/// Lends a group to `operator`, or takes it back where `operator` is `None`,
/// on behalf of `requesting`. The record that comes back is the group's new
/// state: it is to be written in one update of that one record.
pub fn set_delegatee(
    snapshot: &Snapshot,
    group_id: Identifier,
    operator: Option<Identifier>,
    requesting: Identifier,
    now: Timestamp,
) -> (r: Result<AssetGroup, RegistryError>)
    ensures
        yields(r, delegation_set(snapshot@, group_id, operator, requesting, now)),
{
    match fetch(&snapshot.groups, group_id) {
        Ok(group) => group.set_delegatee(operator, requesting, now),
        Err(e) => Err(e),
    }
}

/// Two operators cannot borrow the same group at once.
pub proof fn lemma_delegation_exclusive(g: AssetGroupView, first: Identifier, second: Identifier)
    requires
        active_delegatee(g) == Some(first),
        active_delegatee(g) == Some(second),
    ensures
        first == second,
{
}

/// Once its owner has lent a group to an operator, that operator borrows
/// it and whoever borrowed it before does not.
pub proof fn lemma_new_delegatee_replaces(
    g: AssetGroupView,
    operator: Identifier,
    now: Timestamp,
    other: Identifier,
)
    requires
        operator != g.owner,
        other != operator,
    ensures
        delegated(g, Some(operator), g.owner, now) matches Ok(after) && active_delegatee(after)
            == Some(operator) && active_delegatee(after) != Some(other),
{
}

/// A request of anyone but the owner is refused, whatever it asks for.
pub proof fn lemma_non_owner_forbidden(
    g: AssetGroupView,
    operator: Option<Identifier>,
    requesting: Identifier,
    now: Timestamp,
)
    requires
        requesting != g.owner,
    ensures
        delegated(g, operator, requesting, now) == Err::<AssetGroupView, RegistryError>(
            RegistryError::Forbidden,
        ),
{
}

/// Putting members into a list that holds no member twice yields a list
/// that holds no member twice, and it holds what the list held or was put in.
pub proof fn lemma_with_members_is_set(members: Seq<Identifier>, ids: Seq<Identifier>)
    requires
        members.no_duplicates(),
    ensures
        with_members(members, ids).no_duplicates(),
        forall|id: Identifier|
            with_members(members, ids).contains(id) <==> members.contains(id) || ids.contains(id),
    decreases ids.len(),
{
    if ids.len() > 0 {
        let before = with_members(members, ids.drop_last());
        lemma_with_members_is_set(members, ids.drop_last());
        let last = ids.last();
        let after = with_member(before, last);
        assert forall|id: Identifier| after.contains(id) <==> members.contains(id) || ids.contains(
            id,
        ) by {
            if after.contains(id) {
                let k = choose|k: int| 0 <= k < after.len() && after[k] == id;
                if k < before.len() {
                    assert(before[k] == id);
                    assert(before.contains(id));
                    if ids.drop_last().contains(id) {
                        let m = choose|m: int| 0 <= m < ids.drop_last().len() && ids.drop_last()[m] == id;
                        assert(ids[m] == id);
                    }
                } else {
                    assert(id == last);
                    assert(ids[ids.len() - 1] == id);
                }
            }
            if members.contains(id) {
                assert(before.contains(id));
                let k = choose|k: int| 0 <= k < before.len() && before[k] == id;
                assert(after[k] == id);
            }
            if ids.contains(id) {
                let m = choose|m: int| 0 <= m < ids.len() && ids[m] == id;
                if m < ids.len() - 1 {
                    assert(ids.drop_last()[m] == id);
                    assert(before.contains(id));
                    let k = choose|k: int| 0 <= k < before.len() && before[k] == id;
                    assert(after[k] == id);
                } else {
                    if before.contains(last) {
                    } else {
                        assert(after[before.len() as int] == last);
                    }
                }
            }
        }
    }
}

} // verus!
