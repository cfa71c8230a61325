//! The in-memory shard registry and the active credentials.

pub use crate::shard_list::ShardListEntry;
use crate::shard_list::{ShardRecord, ShardStatus, StatusRecord};
use vstd::prelude::*;

verus! {

/// Whether some record of `state` has the id `id`.
pub open spec fn has_id(state: Seq<ShardRecord>, id: nat) -> bool {
    exists|i: int| 0 <= i < state.len() && (#[trigger] state[i]).id == id
}

/// Whether `i` is the place of the first record of `state` with the id `id`.
pub open spec fn is_first_with_id(state: Seq<ShardRecord>, id: nat, i: int) -> bool {
    &&& 0 <= i < state.len()
    &&& state[i].id == id
    &&& forall|j: int| 0 <= j < i ==> (#[trigger] state[j]).id != id
}

/// The place of the first record of `state` with the id `id`, where
/// `has_id(state, id)`.
pub open spec fn first_with_id(state: Seq<ShardRecord>, id: nat) -> int {
    choose|i: int| is_first_with_id(state, id, i)
}

/// No two records of `state` share an id.
pub open spec fn ids_unique(state: Seq<ShardRecord>) -> bool {
    forall|i: int, j: int|
        0 <= i < j < state.len() ==> (#[trigger] state[i]).id != (#[trigger] state[j]).id
}

/// The record that a lookup of `id` finds: the one with that id, and the
/// first of them should a sequence hold several.
pub open spec fn record_with_id(state: Seq<ShardRecord>, id: nat) -> Option<ShardRecord> {
    if has_id(state, id) {
        Some(state[first_with_id(state, id)])
    } else {
        None
    }
}

/// The record `record` under the id `id`: every field but the id is that of
/// `record`.
pub open spec fn with_id(record: ShardRecord, id: nat) -> ShardRecord {
    ShardRecord { id, ..record }
}

/// The registry after `record` was added: it stands behind the others where
/// no record has its id; where one has, the registry is as it was.
pub open spec fn with_added(state: Seq<ShardRecord>, record: ShardRecord) -> Seq<ShardRecord> {
    if has_id(state, record.id) {
        state
    } else {
        state.push(record)
    }
}

/// The registry after the record with the id `id` was replaced by `record`,
/// which takes that id over: the identity of a shard does not change. The
/// registry itself where no record has the id.
pub open spec fn with_updated(state: Seq<ShardRecord>, id: nat, record: ShardRecord) -> Seq<
    ShardRecord,
> {
    if has_id(state, id) {
        state.update(first_with_id(state, id), with_id(record, id))
    } else {
        state
    }
}

/// The registry after the record with the id `id` was taken out; the
/// registry itself where no record has that id.
pub open spec fn with_removed(state: Seq<ShardRecord>, id: nat) -> Seq<ShardRecord> {
    if has_id(state, id) {
        state.remove(first_with_id(state, id))
    } else {
        state
    }
}

/// A record with the id `id` has exactly one first place.
pub proof fn lemma_first_with_id(state: Seq<ShardRecord>, id: nat, i: int)
    requires
        is_first_with_id(state, id, i),
    ensures
        has_id(state, id),
        first_with_id(state, id) == i,
{
    let k = first_with_id(state, id);
    assert(is_first_with_id(state, id, k));
    if k < i {
        assert(state[k].id != id);
    } else if i < k {
        assert(state[i].id != id);
    }
}

/// Where some record has the id `id`, one of them comes first.
pub proof fn lemma_has_id_first(state: Seq<ShardRecord>, id: nat)
    requires
        has_id(state, id),
    ensures
        is_first_with_id(state, id, first_with_id(state, id)),
{
    let w = choose|i: int| 0 <= i < state.len() && (#[trigger] state[i]).id == id;
    lemma_first_below(state, id, w);
}

/// Below a record with the id `id` there is a first one with that id.
proof fn lemma_first_below(state: Seq<ShardRecord>, id: nat, w: int)
    requires
        0 <= w < state.len(),
        state[w].id == id,
    ensures
        exists|i: int| is_first_with_id(state, id, i),
    decreases w,
{
    if forall|j: int| 0 <= j < w ==> (#[trigger] state[j]).id != id {
        assert(is_first_with_id(state, id, w));
    } else {
        let j = choose|j: int| 0 <= j < w && (#[trigger] state[j]).id == id;
        lemma_first_below(state, id, j);
    }
}

/// The registry of shards: the records in the order in which they were
/// added. No two of its records share an id.
pub struct ShardDatabase {
    shards: Vec<ShardListEntry>,
}

impl ShardDatabase {
    #[verifier::type_invariant]
    spec fn ids_distinct(self) -> bool {
        ids_unique(self.shards.deep_view())
    }
}

impl View for ShardDatabase {
    type V = Seq<ShardRecord>;

    closed spec fn view(&self) -> Seq<ShardRecord> {
        self.shards.deep_view()
    }
}

/// The two shards a registry holds when the process starts.
pub open spec fn initial_records() -> Seq<ShardRecord> {
    seq![
        ShardRecord {
            name: "Shard1"@,
            description: "Primary shard"@,
            id: 1,
            login_server_ip: "192.168.1.1"@,
            login_server_port: 8080,
            lobby_server_ip: "192.168.1.2"@,
            lobby_server_port: 8081,
            mcots_server_ip: "192.168.1.3"@,
            server_group_name: "GroupA"@,
            population: 100,
            max_personas_per_user: 5,
            diagnostic_server_host: "192.168.1.4"@,
            diagnostic_server_port: 9090,
            status: None,
        },
        ShardRecord {
            name: "Shard2"@,
            description: "Secondary shard"@,
            id: 2,
            login_server_ip: "192.168.1.5"@,
            login_server_port: 8082,
            lobby_server_ip: "192.168.1.6"@,
            lobby_server_port: 8083,
            mcots_server_ip: "192.168.1.7"@,
            server_group_name: "GroupB"@,
            population: 50,
            max_personas_per_user: 3,
            diagnostic_server_host: "192.168.1.8"@,
            diagnostic_server_port: 9091,
            status: Some(StatusRecord { id: 2, reason: "Offline"@ }),
        },
    ]
}

/// The place of the first shard with the id `id`.
fn position(shards: &Vec<ShardListEntry>, id: u32) -> (pos: Option<usize>)
    ensures
        match pos {
            Some(i) => is_first_with_id(shards.deep_view(), id as nat, i as int),
            None => !has_id(shards.deep_view(), id as nat),
        },
{
    let mut i: usize = 0;
    while i < shards.len()
        invariant
            i <= shards.len(),
            forall|j: int| 0 <= j < i ==> (#[trigger] shards.deep_view()[j]).id != id as nat,
        decreases shards.len() - i,
    {
        if shards[i].id == id {
            assert(shards.deep_view()[i as int] == shards[i as int]@);
            return Some(i);
        }
        assert(shards.deep_view()[i as int] == shards[i as int]@);
        i = i + 1;
    }
    None
}

impl ShardDatabase {
    /// A registry without shards.
    pub fn new() -> (db: ShardDatabase)
        ensures
            db@ == Seq::<ShardRecord>::empty(),
            ids_unique(db@),
    {
        let db = ShardDatabase { shards: Vec::new() };
        assert(db@ =~= Seq::<ShardRecord>::empty());
        db
    }

    /// The registry as it is when the process starts: a healthy primary shard
    /// and an offline secondary one.
    pub fn with_initial_shards() -> (db: ShardDatabase)
        ensures
            db@ == initial_records(),
            ids_unique(db@),
    {
        let mut shards: Vec<ShardListEntry> = Vec::new();
        shards.push(
            ShardListEntry {
                name: String::from_str("Shard1"),
                description: String::from_str("Primary shard"),
                id: 1,
                login_server_ip: String::from_str("192.168.1.1"),
                login_server_port: 8080,
                lobby_server_ip: String::from_str("192.168.1.2"),
                lobby_server_port: 8081,
                mcots_server_ip: String::from_str("192.168.1.3"),
                server_group_name: String::from_str("GroupA"),
                population: 100,
                max_personas_per_user: 5,
                diagnostic_server_host: String::from_str("192.168.1.4"),
                diagnostic_server_port: 9090,
                status: None,
            },
        );
        shards.push(
            ShardListEntry {
                name: String::from_str("Shard2"),
                description: String::from_str("Secondary shard"),
                id: 2,
                login_server_ip: String::from_str("192.168.1.5"),
                login_server_port: 8082,
                lobby_server_ip: String::from_str("192.168.1.6"),
                lobby_server_port: 8083,
                mcots_server_ip: String::from_str("192.168.1.7"),
                server_group_name: String::from_str("GroupB"),
                population: 50,
                max_personas_per_user: 3,
                diagnostic_server_host: String::from_str("192.168.1.8"),
                diagnostic_server_port: 9091,
                status: Some(ShardStatus { id: 2, reason: String::from_str("Offline") }),
            },
        );
        let db = ShardDatabase { shards };
        assert(db@ =~= initial_records());
        db
    }

    /// How many shards the registry holds.
    pub fn len(&self) -> (n: usize)
        ensures
            n == self@.len(),
            ids_unique(self@),
    {
        proof {
            use_type_invariant(self);
        }
        self.shards.len()
    }
}

impl ShardListEntry {
    /// A snapshot of the registry: copies of its records, in insertion order.
    pub fn get_all_shards(db: &ShardDatabase) -> (all: Vec<ShardListEntry>)
        ensures
            all.deep_view() == db@,
            ids_unique(db@),
    {
        proof {
            use_type_invariant(db);
        }
        let mut all: Vec<ShardListEntry> = Vec::new();
        let mut i: usize = 0;
        while i < db.shards.len()
            invariant
                i <= db.shards.len(),
                all.deep_view() == db.shards.deep_view().take(i as int),
            decreases db.shards.len() - i,
        {
            let ghost before = all.deep_view();
            let copy: ShardListEntry = db.shards[i].clone();
            all.push(copy);
            i = i + 1;
            assert(all.deep_view() =~= before.push(copy@));
            assert(all.deep_view() =~= db.shards.deep_view().take(i as int));
        }
        assert(db.shards.deep_view().take(i as int) =~= db.shards.deep_view());
        all
    }

    /// A copy of the record with the id `id`, if there is one.
    pub fn get_shard_by_id(db: &ShardDatabase, id: u32) -> (found: Option<ShardListEntry>)
        ensures
            found.deep_view() == record_with_id(db@, id as nat),
            found is Some <==> has_id(db@, id as nat),
    {
        match position(&db.shards, id) {
            Some(i) => {
                proof {
                    lemma_first_with_id(db@, id as nat, i as int);
                }
                Some(db.shards[i].clone())
            },
            None => None,
        }
    }

    /// Adds `shard` behind the records the registry holds. Where a record
    /// already has the id of `shard`, the registry stays as it is: an id
    /// names one shard.
    pub fn add_shard(db: &mut ShardDatabase, shard: ShardListEntry)
        ensures
            final(db)@ == with_added(old(db)@, shard@),
            !has_id(old(db)@, shard@.id) ==> final(db)@ == old(db)@.push(shard@),
            has_id(old(db)@, shard@.id) ==> final(db)@ == old(db)@,
            ids_unique(final(db)@),
    {
        proof {
            use_type_invariant(&*db);
            lemma_ids_stay_unique(db@, OperationRecord::Add(shard@));
        }
        match position(&db.shards, shard.id) {
            Some(_) => {},
            None => {
                // The records are taken out for the change and put back
                // after it: the registry holds distinct ids at every step.
                let mut shards: Vec<ShardListEntry> = Vec::new();
                std::mem::swap(&mut db.shards, &mut shards);
                shards.push(shard);
                assert(shards.deep_view() =~= old(db)@.push(shard@));
                std::mem::swap(&mut db.shards, &mut shards);
            },
        }
    }

    /// Replaces the record with the id `id` by `updated_shard`, which takes
    /// that id over whatever id it came with. Returns `false`, and leaves
    /// the registry as it is, where no record has the id.
    pub fn update_shard(db: &mut ShardDatabase, id: u32, updated_shard: ShardListEntry) -> (done:
        bool)
        ensures
            done == has_id(old(db)@, id as nat),
            final(db)@ == with_updated(old(db)@, id as nat, updated_shard@),
            !done ==> final(db)@ == old(db)@,
            done ==> record_with_id(final(db)@, id as nat) == Some(
                with_id(updated_shard@, id as nat),
            ),
            ids_unique(final(db)@),
    {
        proof {
            use_type_invariant(&*db);
            lemma_ids_stay_unique(db@, OperationRecord::Update(id as nat, updated_shard@));
        }
        match position(&db.shards, id) {
            Some(i) => {
                proof {
                    lemma_first_with_id(db@, id as nat, i as int);
                }
                let mut replacement: ShardListEntry = updated_shard;
                replacement.id = id;
                assert(replacement@ == with_id(updated_shard@, id as nat));
                let mut shards: Vec<ShardListEntry> = Vec::new();
                std::mem::swap(&mut db.shards, &mut shards);
                shards.set(i, replacement);
                assert(shards.deep_view() =~= old(db)@.update(i as int, replacement@));
                std::mem::swap(&mut db.shards, &mut shards);
                proof {
                    lemma_updated_record_is_found(old(db)@, id as nat, updated_shard@);
                }
                true
            },
            None => false,
        }
    }

    /// Takes the record with the id `id` out. Returns `false`, and leaves
    /// the registry as it is, where no record has that id.
    pub fn delete_shard(db: &mut ShardDatabase, id: u32) -> (done: bool)
        ensures
            done == has_id(old(db)@, id as nat),
            final(db)@ == with_removed(old(db)@, id as nat),
            !done ==> final(db)@ == old(db)@,
            done ==> !has_id(final(db)@, id as nat),
            ids_unique(final(db)@),
    {
        proof {
            use_type_invariant(&*db);
            lemma_ids_stay_unique(db@, OperationRecord::Remove(id as nat));
        }
        match position(&db.shards, id) {
            Some(i) => {
                proof {
                    lemma_first_with_id(db@, id as nat, i as int);
                    lemma_removed_id_is_gone(old(db)@, id as nat);
                }
                let mut shards: Vec<ShardListEntry> = Vec::new();
                std::mem::swap(&mut db.shards, &mut shards);
                shards.remove(i);
                assert(shards.deep_view() =~= old(db)@.remove(i as int));
                std::mem::swap(&mut db.shards, &mut shards);
                true
            },
            None => false,
        }
    }
}

/// One change to the registry.
pub enum ShardOperation {
    /// Add the record behind the others, unless a record has its id.
    Add(ShardListEntry),
    /// Replace the record with this id by the record, under this id.
    Update(u32, ShardListEntry),
    /// Take the record with this id out.
    Remove(u32),
}

/// The mathematical content of a [`ShardOperation`].
pub enum OperationRecord {
    Add(ShardRecord),
    Update(nat, ShardRecord),
    Remove(nat),
}

impl View for ShardOperation {
    type V = OperationRecord;

    open spec fn view(&self) -> OperationRecord {
        match self {
            ShardOperation::Add(shard) => OperationRecord::Add(shard@),
            ShardOperation::Update(id, shard) => OperationRecord::Update(*id as nat, shard@),
            ShardOperation::Remove(id) => OperationRecord::Remove(*id as nat),
        }
    }
}

impl DeepView for ShardOperation {
    type V = OperationRecord;

    open spec fn deep_view(&self) -> OperationRecord {
        self@
    }
}

/// The registry after one change.
pub open spec fn apply_operation(state: Seq<ShardRecord>, op: OperationRecord) -> Seq<
    ShardRecord,
> {
    match op {
        OperationRecord::Add(record) => with_added(state, record),
        OperationRecord::Update(id, record) => with_updated(state, id, record),
        OperationRecord::Remove(id) => with_removed(state, id),
    }
}

/// The registry after the changes `ops`, made one after the other in the
/// order of the sequence.
pub open spec fn apply_operations(state: Seq<ShardRecord>, ops: Seq<OperationRecord>) -> Seq<
    ShardRecord,
>
    decreases ops.len(),
{
    if ops.len() == 0 {
        state
    } else {
        apply_operation(apply_operations(state, ops.drop_last()), ops.last())
    }
}

/// Whether a change has any effect on the registry: an addition where no
/// record has the id yet, an update or a removal where one has.
pub open spec fn takes_effect(state: Seq<ShardRecord>, op: OperationRecord) -> bool {
    match op {
        OperationRecord::Add(record) => !has_id(state, record.id),
        OperationRecord::Update(id, _) => has_id(state, id),
        OperationRecord::Remove(id) => has_id(state, id),
    }
}

/// The record that a change brings into the registry, if it brings one.
pub open spec fn record_of(op: OperationRecord) -> Option<ShardRecord> {
    match op {
        OperationRecord::Add(record) => Some(record),
        OperationRecord::Update(id, record) => Some(with_id(record, id)),
        OperationRecord::Remove(_) => None,
    }
}

/// A change without effect changes nothing: an update or a removal of an id
/// that no record has, an addition of an id that one has.
pub proof fn lemma_absent_id_changes_nothing(state: Seq<ShardRecord>, op: OperationRecord)
    requires
        !takes_effect(state, op),
    ensures
        apply_operation(state, op) == state,
{
}

/// Changes made in sequence compose: making the changes `first` and then
/// the changes `second` is making the changes of `first + second` in their
/// one order. Serialized application is application in a total order.
pub proof fn lemma_apply_operations_concat(
    state: Seq<ShardRecord>,
    first: Seq<OperationRecord>,
    second: Seq<OperationRecord>,
)
    ensures
        apply_operations(state, first + second) == apply_operations(
            apply_operations(state, first),
            second,
        ),
    decreases second.len(),
{
    if second.len() == 0 {
        assert(first + second =~= first);
    } else {
        assert((first + second).drop_last() =~= first + second.drop_last());
        assert((first + second).last() == second.last());
        lemma_apply_operations_concat(state, first, second.drop_last());
    }
}

/// One change leaves every record whole: each record of the registry after
/// the change was in the registry before it, or is the record the change
/// brought.
pub proof fn lemma_operation_keeps_records_whole(
    state: Seq<ShardRecord>,
    op: OperationRecord,
    i: int,
)
    requires
        0 <= i < apply_operation(state, op).len(),
    ensures
        state.contains(apply_operation(state, op)[i]) || record_of(op) == Some(
            apply_operation(state, op)[i],
        ),
{
    let after = apply_operation(state, op);
    match op {
        OperationRecord::Add(record) => {
            if i < state.len() {
                assert(state[i] == after[i]);
            }
        },
        OperationRecord::Update(id, record) => {
            if has_id(state, id) {
                lemma_has_id_first(state, id);
                if i != first_with_id(state, id) {
                    assert(state[i] == after[i]);
                }
            } else {
                assert(state[i] == after[i]);
            }
        },
        OperationRecord::Remove(id) => {
            if has_id(state, id) {
                lemma_has_id_first(state, id);
                let k = first_with_id(state, id);
                if i < k {
                    assert(state[i] == after[i]);
                } else {
                    assert(state[i + 1] == after[i]);
                }
            } else {
                assert(state[i] == after[i]);
            }
        },
    }
}

/// No sequence of changes mixes two records: each record of the registry
/// after the changes was in the registry before them, or is the record that
/// one of the changes brought.
pub proof fn lemma_operations_keep_records_whole(
    state: Seq<ShardRecord>,
    ops: Seq<OperationRecord>,
    i: int,
)
    requires
        0 <= i < apply_operations(state, ops).len(),
    ensures
        state.contains(apply_operations(state, ops)[i]) || exists|k: int|
            0 <= k < ops.len() && record_of(#[trigger] ops[k]) == Some(
                apply_operations(state, ops)[i],
            ),
    decreases ops.len(),
{
    if ops.len() > 0 {
        let before = apply_operations(state, ops.drop_last());
        let record = apply_operations(state, ops)[i];
        lemma_operation_keeps_records_whole(before, ops.last(), i);
        if record_of(ops.last()) == Some(record) {
            assert(record_of(ops[ops.len() - 1]) == Some(record));
        } else {
            let j = choose|j: int| 0 <= j < before.len() && before[j] == record;
            lemma_operations_keep_records_whole(state, ops.drop_last(), j);
            if !state.contains(record) {
                let k = choose|k: int|
                    0 <= k < ops.drop_last().len() && record_of(#[trigger] ops.drop_last()[k])
                        == Some(record);
                assert(ops[k] == ops.drop_last()[k]);
            }
        }
    }
}

/// The ids of a registry stay distinct under every change.
pub proof fn lemma_ids_stay_unique(state: Seq<ShardRecord>, op: OperationRecord)
    requires
        ids_unique(state),
    ensures
        ids_unique(apply_operation(state, op)),
{
    let after = apply_operation(state, op);
    match op {
        OperationRecord::Add(record) => {
            if !has_id(state, record.id) {
                assert forall|i: int, j: int| 0 <= i < j < after.len() implies (
                #[trigger] after[i]).id != (#[trigger] after[j]).id by {
                    if j == state.len() {
                        assert(state[i].id != record.id);
                    } else {
                        assert(state[i].id != state[j].id);
                    }
                }
            }
        },
        OperationRecord::Update(id, record) => {
            if has_id(state, id) {
                lemma_has_id_first(state, id);
                let k = first_with_id(state, id);
                assert forall|i: int, j: int| 0 <= i < j < after.len() implies (
                #[trigger] after[i]).id != (#[trigger] after[j]).id by {
                    if i == k {
                        assert(state[j].id != state[k].id);
                    } else if j == k {
                        assert(state[i].id != state[k].id);
                    } else {
                        assert(state[i].id != state[j].id);
                    }
                }
            }
        },
        OperationRecord::Remove(id) => {
            if has_id(state, id) {
                lemma_has_id_first(state, id);
                let k = first_with_id(state, id);
                assert forall|i: int, j: int| 0 <= i < j < after.len() implies (
                #[trigger] after[i]).id != (#[trigger] after[j]).id by {
                    let si = if i < k { i } else { i + 1 };
                    let sj = if j < k { j } else { j + 1 };
                    assert(after[i] == state[si]);
                    assert(after[j] == state[sj]);
                    assert(state[si].id != state[sj].id);
                }
            }
        },
    }
}

/// The ids of a registry stay distinct under every sequence of changes.
pub proof fn lemma_operations_keep_ids_unique(state: Seq<ShardRecord>, ops: Seq<OperationRecord>)
    requires
        ids_unique(state),
    ensures
        ids_unique(apply_operations(state, ops)),
    decreases ops.len(),
{
    if ops.len() > 0 {
        lemma_operations_keep_ids_unique(state, ops.drop_last());
        lemma_ids_stay_unique(apply_operations(state, ops.drop_last()), ops.last());
    }
}

/// After an update of an id that a record has, a lookup of the id finds the
/// new record.
pub proof fn lemma_updated_record_is_found(state: Seq<ShardRecord>, id: nat, record: ShardRecord)
    requires
        has_id(state, id),
    ensures
        record_with_id(with_updated(state, id, record), id) == Some(with_id(record, id)),
{
    lemma_has_id_first(state, id);
    let k = first_with_id(state, id);
    let after = with_updated(state, id, record);
    assert forall|j: int| 0 <= j < k implies (#[trigger] after[j]).id != id by {
        assert(after[j] == state[j]);
    }
    assert(is_first_with_id(after, id, k));
    lemma_first_with_id(after, id, k);
}

/// After the removal of an id from a registry with distinct ids, no record
/// has the id.
pub proof fn lemma_removed_id_is_gone(state: Seq<ShardRecord>, id: nat)
    requires
        ids_unique(state),
    ensures
        !has_id(with_removed(state, id), id),
{
    if has_id(state, id) {
        lemma_has_id_first(state, id);
        let k = first_with_id(state, id);
        let after = with_removed(state, id);
        assert forall|j: int| 0 <= j < after.len() implies (#[trigger] after[j]).id != id by {
            let sj = if j < k { j } else { j + 1 };
            assert(after[j] == state[sj]);
            if sj < k {
                assert(state[sj].id != state[k].id);
            } else {
                assert(state[k].id != state[sj].id);
            }
        }
    }
}

impl ShardDatabase {
    /// Makes one change. Returns whether the change had an effect.
    pub fn apply(&mut self, op: &ShardOperation) -> (changed: bool)
        ensures
            final(self)@ == apply_operation(old(self)@, op@),
            changed == takes_effect(old(self)@, op@),
            ids_unique(final(self)@),
    {
        match op {
            ShardOperation::Add(shard) => {
                let free: bool = ShardListEntry::get_shard_by_id(self, shard.id).is_none();
                ShardListEntry::add_shard(self, shard.clone());
                free
            },
            ShardOperation::Update(id, shard) => ShardListEntry::update_shard(
                self,
                *id,
                shard.clone(),
            ),
            ShardOperation::Remove(id) => ShardListEntry::delete_shard(self, *id),
        }
    }

    /// Makes the changes `ops`, one after the other in the order of the
    /// vector.
    pub fn apply_all(&mut self, ops: &Vec<ShardOperation>)
        ensures
            final(self)@ == apply_operations(old(self)@, ops.deep_view()),
            ids_unique(final(self)@),
    {
        proof {
            use_type_invariant(&*self);
        }
        let mut i: usize = 0;
        while i < ops.len()
            invariant
                i <= ops.len(),
                self@ == apply_operations(old(self)@, ops.deep_view().take(i as int)),
                ids_unique(self@),
            decreases ops.len() - i,
        {
            let ghost done = ops.deep_view().take(i as int);
            let ghost next = ops.deep_view().take(i + 1);
            assert(next.drop_last() =~= done);
            assert(next.last() == ops[i as int]@);
            self.apply(&ops[i]);
            i = i + 1;
        }
        assert(ops.deep_view().take(i as int) =~= ops.deep_view());
    }
}

/// The one active pair of user name and password.
#[allow(non_camel_case_types)]
pub struct AUTH_CREDENTIALS {
    username: String,
    password: String,
}

impl View for AUTH_CREDENTIALS {
    type V = (Seq<char>, Seq<char>);

    closed spec fn view(&self) -> (Seq<char>, Seq<char>) {
        (self.username@, self.password@)
    }
}

/// What `url::Url::parse` finds in a connection URL: nothing where the text
/// is no absolute URL, else its user name and, where it has one, its password.
pub uninterp spec fn url_userinfo(url: Seq<char>) -> Option<(Seq<char>, Option<Seq<char>>)>;

/// Parses a URL with `url::Url::parse` and reads the user name and the
/// password with `Url::username` and `Url::password`. The result is `None`
/// where parsing fails, and a function of the text alone.
#[verifier::external_body]
fn parse_userinfo(url: &str) -> (userinfo: Option<(String, Option<String>)>)
    ensures
        userinfo.deep_view() == url_userinfo(url@),
{
    match url::Url::parse(url) {
        Ok(parsed) => Some(
            (parsed.username().to_string(), parsed.password().map(|p| p.to_string())),
        ),
        Err(_) => None,
    }
}

/// The credentials that the user name and the password of a connection URL
/// stand for: a URL without a password stands for the empty password.
pub open spec fn credentials_of(userinfo: (Seq<char>, Option<Seq<char>>)) -> (
    Seq<char>,
    Seq<char>,
) {
    (
        userinfo.0,
        match userinfo.1 {
            Some(password) => password,
            None => Seq::empty(),
        },
    )
}

impl AUTH_CREDENTIALS {
    /// The credentials a process starts with.
    pub fn new() -> (credentials: AUTH_CREDENTIALS)
        ensures
            credentials@ == ("postgres"@, "password"@),
    {
        AUTH_CREDENTIALS {
            username: String::from_str("postgres"),
            password: String::from_str("password"),
        }
    }

    /// A copy of the active pair: user name, then password.
    pub fn get_credentials(&self) -> (pair: (String, String))
        ensures
            pair.deep_view() == self@,
    {
        (self.username.clone(), self.password.clone())
    }

    /// Makes `username` and `password` the active pair.
    pub fn update_credentials(&mut self, username: String, password: String)
        ensures
            final(self)@ == (username@, password@),
    {
        self.username = username;
        self.password = password;
    }

    /// Makes the user name and the password of a connection URL the active
    /// pair, the empty password where the URL has none.
    pub fn update_from_userinfo(&mut self, username: String, password: Option<String>)
        ensures
            final(self)@ == credentials_of((username@, password.deep_view())),
    {
        let password: String = match password {
            Some(p) => p,
            None => String::new(),
        };
        self.update_credentials(username, password);
    }

    /// Reads the active pair from a connection URL. Returns `false`, and
    /// leaves the pair as it is, where the text is no absolute URL.
    pub fn update_from_url(&mut self, database_url: &str) -> (done: bool)
        ensures
            done == url_userinfo(database_url@) is Some,
            match url_userinfo(database_url@) {
                Some(userinfo) => final(self)@ == credentials_of(userinfo),
                None => final(self)@ == old(self)@,
            },
    {
        match parse_userinfo(database_url) {
            Some((username, password)) => {
                self.update_from_userinfo(username, password);
                true
            },
            None => false,
        }
    }
}

/// The text of the query that reads every shard from the persistent store.
pub fn construct_get_all_shards_query() -> (query: String)
    ensures
        query@
            == "SELECT id, name, description, login_server_ip, login_server_port, lobby_server_ip, lobby_server_port, mcots_server_ip, server_group_name, population, max_personas_per_user, diagnostic_server_host, diagnostic_server_port, status FROM shards"@,
{
    String::from_str(
        "SELECT id, name, description, login_server_ip, login_server_port, lobby_server_ip, lobby_server_port, mcots_server_ip, server_group_name, population, max_personas_per_user, diagnostic_server_host, diagnostic_server_port, status FROM shards",
    )
}

} // verus!
