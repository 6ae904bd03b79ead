//! The delegation engine: which assets an operator controls, which it has
//! borrowed from others and which it has lent out.

use crate::entity::{
    Aircraft, AircraftView, AssetGroup, AssetGroupView, AssetStatus, Basics, BasicsView, Operator,
    Vertiport, VertiportView,
};
use crate::error::{yields, RegistryError};
use crate::group::{active_delegatee, contains_id};
use crate::identifier::Identifier;
use crate::snapshot::{find, holds, views, Record, Snapshot, SnapshotView};
use vstd::prelude::*;

verus! {

/// The kinds of assets that a group can hold.
#[derive(Clone, Copy, Debug, PartialEq, Eq, Hash, Structural)]
pub enum AssetKind {
    Aircraft,
    Vertiport,
}

/// How an asset stands to an operator.
#[derive(Clone, Copy, Debug, PartialEq, Eq, Hash, Structural)]
pub enum Relation {
    /// The operator owns the asset and has lent it to nobody.
    Owned,
    /// The operator has borrowed the asset from another operator.
    DelegatedTo,
    /// The operator owns the asset and has lent it to another operator.
    DelegatedFrom,
}

/// Which assets a query asks for.
#[derive(Clone, Copy, Debug, PartialEq, Eq, Hash, Structural)]
pub enum ResolveMode {
    Owned,
    DelegatedTo,
    DelegatedFrom,
    /// The three relations together.
    All,
}

/// What the delegation rules read of an asset.
#[derive(Clone, Copy, Debug, PartialEq, Eq, Hash, Structural)]
pub struct AssetEntry {
    pub id: Identifier,
    pub kind: AssetKind,
    /// The operator that owns the asset.
    pub owner: Identifier,
}

/// A reference to an asset, tagged with its relation to the operator that
/// asked.
#[derive(Clone, Copy, Debug, PartialEq, Eq, Hash, Structural)]
pub struct AssetRef {
    pub id: Identifier,
    pub kind: AssetKind,
    pub relation: Relation,
}

/// An asset that can be a member of a group.
pub trait Asset: Record {
    /// What the delegation rules read of the asset.
    spec fn entry_of(v: Self::V) -> AssetEntry;

    /// What the delegation rules read of this asset.
    fn entry(&self) -> (e: AssetEntry)
        ensures
            e == Self::entry_of(self@),
    ;
}

impl Asset for Aircraft {
    open spec fn entry_of(v: AircraftView) -> AssetEntry {
        AssetEntry { id: v.basics.id, kind: AssetKind::Aircraft, owner: v.basics.owner }
    }

    fn entry(&self) -> (e: AssetEntry) {
        AssetEntry { id: self.basics.id, kind: AssetKind::Aircraft, owner: self.basics.owner }
    }
}

impl Asset for Vertiport {
    open spec fn entry_of(v: VertiportView) -> AssetEntry {
        AssetEntry { id: v.basics.id, kind: AssetKind::Vertiport, owner: v.basics.owner }
    }

    fn entry(&self) -> (e: AssetEntry) {
        AssetEntry { id: self.basics.id, kind: AssetKind::Vertiport, owner: self.basics.owner }
    }
}

/// Whether a group holds an asset and is lent to somebody.
pub open spec fn delegates(g: AssetGroupView, asset: Identifier) -> bool {
    g.assets.contains(asset) && active_delegatee(g) is Some
}

/// Whether a group holds an asset and is lent to somebody other than `op`.
pub open spec fn lends(g: AssetGroupView, asset: Identifier, op: Identifier) -> bool {
    g.assets.contains(asset) && active_delegatee(g) is Some && active_delegatee(g) != Some(op)
}

/// Whether a group of another operator holds an asset and is lent to `op`.
pub open spec fn borrows(g: AssetGroupView, asset: Identifier, op: Identifier) -> bool {
    g.assets.contains(asset) && g.owner != op && g.delegatee == Some(op)
}

/// Whether one of the groups holds the asset and is lent to somebody.
pub open spec fn any_delegates(groups: Seq<AssetGroupView>, asset: Identifier) -> bool {
    exists|i: int| 0 <= i < groups.len() && delegates(#[trigger] groups[i], asset)
}

/// Whether one of the groups holds the asset and is lent to somebody other
/// than `op`.
pub open spec fn any_lends(groups: Seq<AssetGroupView>, asset: Identifier, op: Identifier) -> bool {
    exists|i: int| 0 <= i < groups.len() && lends(#[trigger] groups[i], asset, op)
}

/// Whether one of the groups belongs to another operator, holds the asset
/// and is lent to `op`.
pub open spec fn any_borrows(groups: Seq<AssetGroupView>, asset: Identifier, op: Identifier) -> bool {
    exists|i: int| 0 <= i < groups.len() && borrows(#[trigger] groups[i], asset, op)
}

/// Whether an asset stands in a relation to an operator.
pub open spec fn relation_holds(
    groups: Seq<AssetGroupView>,
    e: AssetEntry,
    op: Identifier,
    rel: Relation,
) -> bool {
    match rel {
        Relation::Owned => e.owner == op && !any_delegates(groups, e.id),
        Relation::DelegatedTo => any_borrows(groups, e.id, op),
        Relation::DelegatedFrom => e.owner == op && any_lends(groups, e.id, op),
    }
}

/// The test that an asset passes if it stands in the relation to the operator.
pub open spec fn standing(groups: Seq<AssetGroupView>, op: Identifier, rel: Relation) -> spec_fn(
    AssetEntry,
) -> bool {
    |e: AssetEntry| relation_holds(groups, e, op, rel)
}

/// The reference to an asset, tagged with a relation.
pub open spec fn tagged(rel: Relation) -> spec_fn(AssetEntry) -> AssetRef {
    |e: AssetEntry| AssetRef { id: e.id, kind: e.kind, relation: rel }
}

/// The assets that stand in a relation to an operator, in the order of `entries`.
pub open spec fn related(
    entries: Seq<AssetEntry>,
    groups: Seq<AssetGroupView>,
    op: Identifier,
    rel: Relation,
) -> Seq<AssetRef> {
    entries.filter(standing(groups, op, rel)).map_values(tagged(rel))
}

/// The assets that a query asks for: those of one relation, or those of the
/// three relations one after the other.
pub open spec fn related_in_mode(
    entries: Seq<AssetEntry>,
    groups: Seq<AssetGroupView>,
    op: Identifier,
    mode: ResolveMode,
) -> Seq<AssetRef> {
    match mode {
        ResolveMode::Owned => related(entries, groups, op, Relation::Owned),
        ResolveMode::DelegatedTo => related(entries, groups, op, Relation::DelegatedTo),
        ResolveMode::DelegatedFrom => related(entries, groups, op, Relation::DelegatedFrom),
        ResolveMode::All => related(entries, groups, op, Relation::Owned) + related(
            entries,
            groups,
            op,
            Relation::DelegatedTo,
        ) + related(entries, groups, op, Relation::DelegatedFrom),
    }
}

/// What the delegation rules read of each record of a list.
pub open spec fn entries<T: Asset>(records: Seq<T::V>) -> Seq<AssetEntry> {
    Seq::new(records.len(), |i: int| T::entry_of(records[i]))
}

/// The assets of a snapshot: its aircraft, then its vertiports.
pub open spec fn entries_of(s: SnapshotView) -> Seq<AssetEntry> {
    entries::<Aircraft>(s.aircraft) + entries::<Vertiport>(s.vertiports)
}

/// The answer to a query: `NotFound` for an operator that the snapshot does
/// not hold, else the assets that the query asks for.
pub open spec fn resolved(s: SnapshotView, op: Identifier, mode: ResolveMode) -> Result<
    Seq<AssetRef>,
    RegistryError,
> {
    if !holds::<Operator>(s.operators, op) {
        Err(RegistryError::NotFound)
    } else {
        Ok(related_in_mode(entries_of(s), s.groups, op, mode))
    }
}

/// How the groups stand to an asset and an operator: whether one of them
/// delegates the asset, whether the operator borrows the asset through one
/// of them, and whether one of them lends it to somebody else.
fn group_flags(groups: &Vec<AssetGroup>, asset: Identifier, op: Identifier) -> (r: (
    bool,
    bool,
    bool,
))
    ensures
        r.0 == any_delegates(views(groups@), asset),
        r.1 == any_borrows(views(groups@), asset, op),
        r.2 == any_lends(views(groups@), asset, op),
{
    let ghost s = views(groups@);
    let mut delegated = false;
    let mut borrowed = false;
    let mut lent = false;
    let mut i: usize = 0;
    while i < groups.len()
        invariant
            i <= groups.len(),
            s == views(groups@),
            delegated == (exists|j: int| 0 <= j < i && delegates(#[trigger] s[j], asset)),
            borrowed == (exists|j: int| 0 <= j < i && borrows(#[trigger] s[j], asset, op)),
            lent == (exists|j: int| 0 <= j < i && lends(#[trigger] s[j], asset, op)),
        decreases groups.len() - i,
    {
        let group = &groups[i];
        assert(group@ == s[i as int]);
        if group.contains(asset) {
            let active = group.active_delegatee();
            match active {
                Some(d) => {
                    delegated = true;
                    if d != op {
                        lent = true;
                    }
                },
                None => {},
            }
            match group.delegatee {
                Some(d) => {
                    if d == op && group.owner != op {
                        borrowed = true;
                    }
                },
                None => {},
            }
        }
        i = i + 1;
    }
    (delegated, borrowed, lent)
}

/// Whether an asset stands in a relation to an operator.
pub fn stands(groups: &Vec<AssetGroup>, e: AssetEntry, op: Identifier, rel: Relation) -> (r: bool)
    ensures
        r == relation_holds(views(groups@), e, op, rel),
{
    let flags = group_flags(groups, e.id, op);
    match rel {
        Relation::Owned => e.owner == op && !flags.0,
        Relation::DelegatedTo => flags.1,
        Relation::DelegatedFrom => e.owner == op && flags.2,
    }
}

fn push_entries<T: Asset>(records: &Vec<T>, out: &mut Vec<AssetEntry>)
    ensures
        final(out)@ == old(out)@ + entries::<T>(views(records@)),
{
    let mut i: usize = 0;
    while i < records.len()
        invariant
            i <= records.len(),
            out@ == old(out)@ + entries::<T>(views(records@)).take(i as int),
        decreases records.len() - i,
    {
        out.push(records[i].entry());
        i = i + 1;
        assert(out@ =~= old(out)@ + entries::<T>(views(records@)).take(i as int));
    }
    assert(entries::<T>(views(records@)).take(records.len() as int) =~= entries::<T>(
        views(records@),
    ));
}

/// What the delegation rules read of the assets of a snapshot.
pub fn asset_entries(snapshot: &Snapshot) -> (r: Vec<AssetEntry>)
    ensures
        r@ == entries_of(snapshot@),
{
    let mut out: Vec<AssetEntry> = Vec::new();
    push_entries(&snapshot.aircraft, &mut out);
    push_entries(&snapshot.vertiports, &mut out);
    assert(out@ =~= entries_of(snapshot@));
    out
}

fn push_related(
    list: &Vec<AssetEntry>,
    groups: &Vec<AssetGroup>,
    op: Identifier,
    rel: Relation,
    out: &mut Vec<AssetRef>,
)
    ensures
        final(out)@ == old(out)@ + related(list@, views(groups@), op, rel),
{
    let ghost test = standing(views(groups@), op, rel);
    let ghost tag = tagged(rel);
    let mut i: usize = 0;
    assert(list@.take(0).filter(test).map_values(tag) =~= Seq::<AssetRef>::empty());
    while i < list.len()
        invariant
            i <= list.len(),
            test == standing(views(groups@), op, rel),
            tag == tagged(rel),
            out@ == old(out)@ + list@.take(i as int).filter(test).map_values(tag),
        decreases list.len() - i,
    {
        let e = list[i];
        proof {
            let head = list@.take(i as int);
            assert(list@.take(i + 1) =~= head.push(e));
            head.lemma_filter_push(e, test);
            head.filter(test).lemma_push_map_commute(tag, e);
        }
        if stands(groups, e, op, rel) {
            out.push(AssetRef { id: e.id, kind: e.kind, relation: rel });
        }
        i = i + 1;
        assert(out@ =~= old(out)@ + list@.take(i as int).filter(test).map_values(tag));
    }
    assert(list@.take(list.len() as int) =~= list@);
}

/// Lists the assets that stand to an operator as the mode says. The assets
/// come in the order of the snapshot, aircraft before vertiports; under
/// `All`, the owned ones come first, then the borrowed ones, then the ones
/// that were lent out.
pub fn resolve_operator_assets(snapshot: &Snapshot, operator_id: Identifier, mode: ResolveMode) -> (r:
    Result<Vec<AssetRef>, RegistryError>)
    ensures
        yields(r, resolved(snapshot@, operator_id, mode)),
{
    if find(&snapshot.operators, operator_id).is_none() {
        return Err(RegistryError::NotFound);
    }
    let list = asset_entries(snapshot);
    let groups = &snapshot.groups;
    let mut out: Vec<AssetRef> = Vec::new();
    match mode {
        ResolveMode::Owned => {
            push_related(&list, groups, operator_id, Relation::Owned, &mut out);
        },
        ResolveMode::DelegatedTo => {
            push_related(&list, groups, operator_id, Relation::DelegatedTo, &mut out);
        },
        ResolveMode::DelegatedFrom => {
            push_related(&list, groups, operator_id, Relation::DelegatedFrom, &mut out);
        },
        ResolveMode::All => {
            push_related(&list, groups, operator_id, Relation::Owned, &mut out);
            push_related(&list, groups, operator_id, Relation::DelegatedTo, &mut out);
            push_related(&list, groups, operator_id, Relation::DelegatedFrom, &mut out);
        },
    }
    assert(out@ =~= related_in_mode(entries_of(snapshot@), views(groups@), operator_id, mode));
    Ok(out)
}

/// Whether `i` is the place of the first group that holds the asset and is
/// lent to somebody.
pub open spec fn first_delegating(groups: Seq<AssetGroupView>, asset: Identifier, i: int) -> bool {
    &&& 0 <= i < groups.len()
    &&& delegates(groups[i], asset)
    &&& forall|j: int| 0 <= j < i ==> !delegates(#[trigger] groups[j], asset)
}

/// The operator whose authority governs an asset: its owner, unless a
/// group that holds the asset is lent to somebody, who then governs it.
/// Where several such groups hold the asset, the first of them decides.
pub open spec fn controller_of(groups: Seq<AssetGroupView>, e: AssetEntry) -> Identifier {
    if any_delegates(groups, e.id) {
        active_delegatee(groups[choose|i: int| first_delegating(groups, e.id, i)]).unwrap()
    } else {
        e.owner
    }
}

/// Whether `caller` may use an asset in normal dispatch: the asset must be
/// available, and the caller must govern it or stand on its whitelist. An
/// asset in an emergency is open to nobody, whoever governs it.
pub open spec fn usable(basics: BasicsView, controller: Identifier, caller: Identifier) -> bool {
    basics.status == AssetStatus::Available && (caller == controller || basics.whitelist.contains(
        caller,
    ))
}

/// The operator whose authority governs an asset.
pub fn effective_controller(groups: &Vec<AssetGroup>, e: AssetEntry) -> (r: Identifier)
    ensures
        r == controller_of(views(groups@), e),
{
    let ghost s = views(groups@);
    let mut i: usize = 0;
    while i < groups.len()
        invariant
            i <= groups.len(),
            s == views(groups@),
            forall|j: int| 0 <= j < i ==> !delegates(#[trigger] s[j], e.id),
        decreases groups.len() - i,
    {
        let group = &groups[i];
        assert(group@ == s[i as int]);
        if group.contains(e.id) {
            match group.active_delegatee() {
                Some(d) => {
                    proof {
                        assert(first_delegating(s, e.id, i as int));
                        let k = choose|k: int| first_delegating(s, e.id, k);
                        assert(k == i) by {
                            if k < i {
                                assert(!delegates(s[k], e.id));
                            }
                            if i < k {
                                assert(!delegates(s[i as int], e.id));
                            }
                        }
                    }
                    return d;
                },
                None => {},
            }
        }
        i = i + 1;
    }
    e.owner
}

/// Whether `caller` may use an asset in normal dispatch, given who governs it.
pub fn may_use(basics: &Basics, controller: Identifier, caller: Identifier) -> (r: bool)
    ensures
        r == usable(basics@, controller, caller),
        basics.status == AssetStatus::Emergency ==> !r,
{
    match basics.status {
        AssetStatus::Available => caller == controller || contains_id(&basics.whitelist, caller),
        _ => false,
    }
}

/// The identifiers of the assets in a list of references.
pub open spec fn ids_of(refs: Seq<AssetRef>) -> Set<Identifier> {
    Set::new(|id: Identifier| exists|i: int| 0 <= i < refs.len() && (#[trigger] refs[i]).id == id)
}

/// Every reference that a query returns is that of an asset which stands in
/// the relation to the operator, and it carries the relation as its tag.
pub proof fn lemma_related_stands(
    list: Seq<AssetEntry>,
    groups: Seq<AssetGroupView>,
    op: Identifier,
    rel: Relation,
    i: int,
)
    requires
        0 <= i < related(list, groups, op, rel).len(),
    ensures
        related(list, groups, op, rel)[i].relation == rel,
        exists|e: AssetEntry|
            list.contains(e) && relation_holds(groups, e, op, rel) && e.id == related(
                list,
                groups,
                op,
                rel,
            )[i].id,
{
    let test = standing(groups, op, rel);
    let kept = list.filter(test);
    let e = kept[i];
    list.lemma_filter_pred(test, i);
    assert(kept.contains(e));
    list.lemma_filter_contains_rev(test, e);
    assert(list.contains(e) && relation_holds(groups, e, op, rel) && e.id == related(
        list,
        groups,
        op,
        rel,
    )[i].id);
}

/// Every asset of the list that stands in the relation to the operator is
/// among the references that the query returns.
pub proof fn lemma_standing_is_related(
    list: Seq<AssetEntry>,
    groups: Seq<AssetGroupView>,
    op: Identifier,
    rel: Relation,
    e: AssetEntry,
)
    requires
        list.contains(e),
        relation_holds(groups, e, op, rel),
    ensures
        ids_of(related(list, groups, op, rel)).contains(e.id),
{
    let test = standing(groups, op, rel);
    let k = choose|k: int| 0 <= k < list.len() && list[k] == e;
    list.lemma_filter_contains(test, k);
    let kept = list.filter(test);
    let m = choose|m: int| 0 <= m < kept.len() && kept[m] == e;
    assert(related(list, groups, op, rel)[m].id == e.id);
}

/// What an operator owns it has neither lent out nor borrowed, and the
/// query for all assets returns what the three single queries return.
pub proof fn lemma_partition(list: Seq<AssetEntry>, groups: Seq<AssetGroupView>, op: Identifier)
    ensures
        ids_of(related_in_mode(list, groups, op, ResolveMode::Owned)).disjoint(
            ids_of(related_in_mode(list, groups, op, ResolveMode::DelegatedFrom)),
        ),
        ids_of(related_in_mode(list, groups, op, ResolveMode::Owned)).disjoint(
            ids_of(related_in_mode(list, groups, op, ResolveMode::DelegatedTo)),
        ),
        related_in_mode(list, groups, op, ResolveMode::All).to_set() == related_in_mode(
            list,
            groups,
            op,
            ResolveMode::Owned,
        ).to_set().union(related_in_mode(list, groups, op, ResolveMode::DelegatedTo).to_set()).union(
            related_in_mode(list, groups, op, ResolveMode::DelegatedFrom).to_set(),
        ),
{
    let owned = related(list, groups, op, Relation::Owned);
    let to = related(list, groups, op, Relation::DelegatedTo);
    let from = related(list, groups, op, Relation::DelegatedFrom);
    assert forall|id: Identifier| ids_of(owned).contains(id) implies !ids_of(from).contains(id)
        && !ids_of(to).contains(id) by {
        let i = choose|i: int| 0 <= i < owned.len() && (#[trigger] owned[i]).id == id;
        lemma_related_stands(list, groups, op, Relation::Owned, i);
        assert(!any_delegates(groups, id));
        if ids_of(from).contains(id) {
            let j = choose|j: int| 0 <= j < from.len() && (#[trigger] from[j]).id == id;
            lemma_related_stands(list, groups, op, Relation::DelegatedFrom, j);
            let g = choose|g: int| 0 <= g < groups.len() && lends(#[trigger] groups[g], id, op);
            assert(delegates(groups[g], id));
        }
        if ids_of(to).contains(id) {
            let j = choose|j: int| 0 <= j < to.len() && (#[trigger] to[j]).id == id;
            lemma_related_stands(list, groups, op, Relation::DelegatedTo, j);
            let g = choose|g: int| 0 <= g < groups.len() && borrows(#[trigger] groups[g], id, op);
            assert(delegates(groups[g], id));
        }
    }
    vstd::seq_lib::seq_to_set_distributes_over_add(owned, to);
    vstd::seq_lib::seq_to_set_distributes_over_add(owned + to, from);
}

/// Whatever the groups say, an asset that an operator owns stands in one of
/// the three relations to that operator.
pub proof fn lemma_owner_always_related(groups: Seq<AssetGroupView>, e: AssetEntry, op: Identifier)
    requires
        e.owner == op,
    ensures
        relation_holds(groups, e, op, Relation::Owned) || relation_holds(
            groups,
            e,
            op,
            Relation::DelegatedTo,
        ) || relation_holds(groups, e, op, Relation::DelegatedFrom),
{
    if any_delegates(groups, e.id) {
        let g = choose|g: int| 0 <= g < groups.len() && delegates(#[trigger] groups[g], e.id);
        if active_delegatee(groups[g]) == Some(op) {
            assert(borrows(groups[g], e.id, op));
        } else {
            assert(lends(groups[g], e.id, op));
        }
    }
}

/// An operator governs what it owns and has not lent out.
pub proof fn lemma_owned_is_governed(groups: Seq<AssetGroupView>, e: AssetEntry, op: Identifier)
    requires
        relation_holds(groups, e, op, Relation::Owned),
    ensures
        controller_of(groups, e) == op,
{
}

} // verus!
