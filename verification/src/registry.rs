//! Looking records up by the text of an identifier, and listing the
//! assets of an operator.

use crate::delegation::{resolve_operator_assets, resolved, AssetRef, ResolveMode};
use crate::entity::{Aircraft, AssetGroup, Operator, Vertipad, Vertiport};
use crate::error::{yields, RegistryError};
use crate::identifier::{identifier_of, parse_identifier, Identifier};
use crate::snapshot::{fetch, found, views, Record, Snapshot, SnapshotView};
use vstd::prelude::*;

verus! {

/// The record that is stored under the identifier that a text spells:
/// `InvalidFormat` for a text that spells none, `NotFound` where no record
/// is stored under it.
pub open spec fn looked_up<T: Record>(records: Seq<T::V>, text: Seq<char>) -> Result<
    T::V,
    RegistryError,
> {
    match identifier_of(text) {
        Ok(id) => found::<T>(records, id),
        Err(e) => Err(e),
    }
}

fn look_up<T: Record>(records: &Vec<T>, text: &str) -> (r: Result<T, RegistryError>)
    ensures
        yields(r, looked_up::<T>(views(records@), text@)),
{
    match parse_identifier(text) {
        Ok(id) => fetch(records, id),
        Err(e) => Err(e),
    }
}

/// Gets an operator by its identifier.
pub fn get_operator(snapshot: &Snapshot, operator_id: &str) -> (r: Result<Operator, RegistryError>)
    ensures
        yields(r, looked_up::<Operator>(snapshot@.operators, operator_id@)),
{
    look_up(&snapshot.operators, operator_id)
}

/// Gets an aircraft by its identifier.
pub fn get_aircraft_by_id(snapshot: &Snapshot, aircraft_id: &str) -> (r: Result<
    Aircraft,
    RegistryError,
>)
    ensures
        yields(r, looked_up::<Aircraft>(snapshot@.aircraft, aircraft_id@)),
{
    look_up(&snapshot.aircraft, aircraft_id)
}

/// Gets a vertipad by its identifier.
pub fn get_vertipad_by_id(snapshot: &Snapshot, vertipad_id: &str) -> (r: Result<
    Vertipad,
    RegistryError,
>)
    ensures
        yields(r, looked_up::<Vertipad>(snapshot@.vertipads, vertipad_id@)),
{
    look_up(&snapshot.vertipads, vertipad_id)
}

/// Gets a vertiport by its identifier.
pub fn get_vertiport_by_id(snapshot: &Snapshot, vertiport_id: &str) -> (r: Result<
    Vertiport,
    RegistryError,
>)
    ensures
        yields(r, looked_up::<Vertiport>(snapshot@.vertiports, vertiport_id@)),
{
    look_up(&snapshot.vertiports, vertiport_id)
}

/// Gets an asset group by its identifier.
pub fn get_asset_group_by_id(snapshot: &Snapshot, asset_group_id: &str) -> (r: Result<
    AssetGroup,
    RegistryError,
>)
    ensures
        yields(r, looked_up::<AssetGroup>(snapshot@.groups, asset_group_id@)),
{
    look_up(&snapshot.groups, asset_group_id)
}

/// The identifiers of the assets in a list of references, in order.
pub open spec fn ref_ids(refs: Seq<AssetRef>) -> Seq<Identifier> {
    Seq::new(refs.len(), |i: int| refs[i].id)
}

/// The identifiers of the assets that stand to an operator as the mode
/// says: `InvalidFormat` for a text that spells no identifier, `NotFound`
/// for an operator that the snapshot does not hold.
pub open spec fn listed(s: SnapshotView, text: Seq<char>, mode: ResolveMode) -> Result<
    Seq<Identifier>,
    RegistryError,
> {
    match identifier_of(text) {
        Ok(op) => match resolved(s, op, mode) {
            Ok(refs) => Ok(ref_ids(refs)),
            Err(e) => Err(e),
        },
        Err(e) => Err(e),
    }
}

fn list_assets(snapshot: &Snapshot, operator_id: &str, mode: ResolveMode) -> (r: Result<
    Vec<Identifier>,
    RegistryError,
>)
    ensures
        yields(r, listed(snapshot@, operator_id@, mode)),
{
    let op = match parse_identifier(operator_id) {
        Ok(op) => op,
        Err(e) => {
            return Err(e);
        },
    };
    let refs = match resolve_operator_assets(snapshot, op, mode) {
        Ok(refs) => refs,
        Err(e) => {
            return Err(e);
        },
    };
    let mut out: Vec<Identifier> = Vec::new();
    let mut i: usize = 0;
    while i < refs.len()
        invariant
            i <= refs.len(),
            out@ == ref_ids(refs@).take(i as int),
        decreases refs.len() - i,
    {
        out.push(refs[i].id);
        i = i + 1;
        assert(out@ =~= ref_ids(refs@).take(i as int));
    }
    assert(ref_ids(refs@).take(refs.len() as int) =~= ref_ids(refs@));
    Ok(out)
}

/// Lists all assets of an operator: what it owns and has kept, what it has
/// borrowed, and what it has lent out.
pub fn get_all_assets(snapshot: &Snapshot, operator_id: &str) -> (r: Result<
    Vec<Identifier>,
    RegistryError,
>)
    ensures
        yields(r, listed(snapshot@, operator_id@, ResolveMode::All)),
{
    list_assets(snapshot, operator_id, ResolveMode::All)
}

/// Lists the assets that an operator owns and has lent to nobody.
pub fn get_all_grouped_assets(snapshot: &Snapshot, operator_id: &str) -> (r: Result<
    Vec<Identifier>,
    RegistryError,
>)
    ensures
        yields(r, listed(snapshot@, operator_id@, ResolveMode::Owned)),
{
    list_assets(snapshot, operator_id, ResolveMode::Owned)
}

/// Lists the assets that an operator has borrowed from others.
pub fn get_all_grouped_assets_delegated_to(snapshot: &Snapshot, operator_id: &str) -> (r: Result<
    Vec<Identifier>,
    RegistryError,
>)
    ensures
        yields(r, listed(snapshot@, operator_id@, ResolveMode::DelegatedTo)),
{
    list_assets(snapshot, operator_id, ResolveMode::DelegatedTo)
}

/// Lists the assets that an operator owns and has lent to others.
pub fn get_all_grouped_assets_delegated_from(snapshot: &Snapshot, operator_id: &str) -> (r: Result<
    Vec<Identifier>,
    RegistryError,
>)
    ensures
        yields(r, listed(snapshot@, operator_id@, ResolveMode::DelegatedFrom)),
{
    list_assets(snapshot, operator_id, ResolveMode::DelegatedFrom)
}

} // verus!
