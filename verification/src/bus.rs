//! The lattice bus bindings of a component instance: the bus handler of an
//! instance, and the call target interfaces that a component registers in
//! its resource table and links by name.

use vstd::prelude::*;
use wasmtime::component::{Resource, ResourceTable, ResourceTableError};

verus! {

#[verifier::external_type_specification]
#[verifier::external_body]
pub struct ExResourceTable(wasmtime::component::ResourceTable);

/// An interface that calls of a component can be directed to.
#[derive(Debug, Clone, PartialEq, Eq)]
pub struct CallTargetInterface {
    pub namespace: String,
    pub package: String,
    pub interface: String,
}

/// Why an operation on the resource table failed.
#[derive(Debug, Clone, Copy, PartialEq, Eq, Structural)]
pub enum TableError {
    /// The table has no free keys.
    Full,
    /// No resource is present under the key.
    NotPresent,
    /// The resource under the key has another type.
    WrongType,
    /// The resource cannot be deleted while it has children.
    HasChildren,
}

/// The call target interfaces held in a resource table, by the key of
/// their resource.
pub uninterp spec fn call_targets(table: ResourceTable) -> Map<u32, CallTargetInterface>;

/// The keys of a resource table whose resource, of whatever type, has child
/// resources.
pub uninterp spec fn keys_with_children(table: ResourceTable) -> Set<u32>;

/// The keys of a resource table that hold a resource, of whatever type.
pub uninterp spec fn live_keys(table: ResourceTable) -> Set<u32>;

/// Whether a resource table has no free key left: its free list is empty
/// and it has reached its maximum capacity (or the end of the key range).
pub uninterp spec fn table_full(table: ResourceTable) -> bool;

/// Calls `ResourceTable::new`, which makes an empty table with the default
/// maximum capacity (a million entries), so it is not full.
#[verifier::external_body]
fn table_new() -> (res: ResourceTable)
    ensures
        live_keys(res).is_empty(),
        call_targets(res).dom().is_empty(),
        keys_with_children(res).is_empty(),
        !table_full(res),
{
    ResourceTable::new()
}

/// Calls `ResourceTable::push` with a call target interface and hands back
/// the key of the new resource. The contract claims what the crate's source
/// shows: the key was free (a free-list slot or a new slot at the end) and
/// now holds `entry`, a resource without children, while the other keys
/// keep what they held; the only error is `Full`, which comes exactly where
/// the table has no free key, and leaves the table as it was.
#[verifier::external_body]
fn table_push(table: &mut ResourceTable, entry: CallTargetInterface) -> (res: Result<u32, TableError>)
    ensures
        match res {
            Ok(rep) => !live_keys(*old(table)).contains(rep)
                && live_keys(*final(table)) == live_keys(*old(table)).insert(rep)
                && !call_targets(*old(table)).contains_key(rep)
                && call_targets(*final(table)) == call_targets(*old(table)).insert(rep, entry),
            Err(e) => e == TableError::Full && *final(table) == *old(table),
        },
        res is Err <==> table_full(*old(table)),
        keys_with_children(*final(table)) == keys_with_children(*old(table)),
{
    match table.push(entry) {
        Ok(resource) => Ok(resource.rep()),
        Err(ResourceTableError::Full) => Err(TableError::Full),
        Err(ResourceTableError::NotPresent) => Err(TableError::NotPresent),
        Err(ResourceTableError::WrongType) => Err(TableError::WrongType),
        Err(ResourceTableError::HasChildren) => Err(TableError::HasChildren),
    }
}

/// Calls `ResourceTable::get` for the call target interface under `rep`
/// and hands back a copy of it. The contract claims what the crate's source
/// shows: the lookup succeeds exactly where a call target interface is held
/// under the key; otherwise the key is free (`NotPresent`) or holds another
/// type (`WrongType`).
#[verifier::external_body]
fn table_get(table: &ResourceTable, rep: u32) -> (res: Result<CallTargetInterface, TableError>)
    ensures
        match res {
            Ok(v) => call_targets(*table).contains_key(rep) && v == call_targets(*table)[rep],
            Err(e) => !call_targets(*table).contains_key(rep)
                && (e == TableError::NotPresent || e == TableError::WrongType),
        },
{
    match table.get(&Resource::<CallTargetInterface>::new_borrow(rep)) {
        Ok(v) => Ok(v.clone()),
        Err(ResourceTableError::Full) => Err(TableError::Full),
        Err(ResourceTableError::NotPresent) => Err(TableError::NotPresent),
        Err(ResourceTableError::WrongType) => Err(TableError::WrongType),
        Err(ResourceTableError::HasChildren) => Err(TableError::HasChildren),
    }
}

/// Calls `ResourceTable::delete` for the call target interface under `rep`.
/// The contract claims what the crate's source shows. The key's children are
/// checked before its type: a key whose resource, of whatever type, has
/// children fails with `HasChildren`, and a free key fails with
/// `NotPresent`; both leave the table as it was. Otherwise the key becomes
/// free: a call target interface under it is removed and handed back (and
/// the table is not full), and a resource of another type is removed all the
/// same and fails with `WrongType`. The interfaces held change only by a
/// successful removal, and no key gains children.
#[verifier::external_body]
fn table_delete(table: &mut ResourceTable, rep: u32) -> (res: Result<CallTargetInterface, TableError>)
    ensures
        match res {
            Ok(v) => call_targets(*old(table)).contains_key(rep) && v == call_targets(*old(table))[rep]
                && call_targets(*final(table)) == call_targets(*old(table)).remove(rep)
                && !table_full(*final(table)),
            Err(e) => call_targets(*final(table)) == call_targets(*old(table))
                && e != TableError::Full
                && (e == TableError::NotPresent <==> !live_keys(*old(table)).contains(rep))
                && (e == TableError::HasChildren <==> keys_with_children(*old(table)).contains(rep))
                && (e == TableError::NotPresent || e == TableError::HasChildren ==> *final(table) == *old(table))
                && (e == TableError::WrongType ==> live_keys(*final(table)) == live_keys(*old(table)).remove(rep)),
        },
        res is Ok ==> live_keys(*final(table)) == live_keys(*old(table)).remove(rep),
        res is Ok <==> (call_targets(*old(table)).contains_key(rep) && !keys_with_children(*old(table)).contains(rep)),
        keys_with_children(*final(table)).subset_of(keys_with_children(*old(table))),
{
    match table.delete(Resource::<CallTargetInterface>::new_own(rep)) {
        Ok(v) => Ok(v),
        Err(ResourceTableError::Full) => Err(TableError::Full),
        Err(ResourceTableError::NotPresent) => Err(TableError::NotPresent),
        Err(ResourceTableError::WrongType) => Err(TableError::WrongType),
        Err(ResourceTableError::HasChildren) => Err(TableError::HasChildren),
    }
}

/// The handlers that a component instance calls out to; `B` is the type of
/// the bus handler.
pub struct Handler<B> {
    bus: Option<B>,
}

impl<B> Handler<B> {
    /// A handler set with no bus handler.
    pub fn new() -> (res: Self)
        ensures
            res.bus_handler() == None::<B>,
    {
        Handler { bus: None }
    }

    /// The bus handler, if one is set.
    pub closed spec fn bus_handler(&self) -> Option<B> {
        self.bus
    }

    /// Gives the bus handler, if one is set.
    pub fn bus(&self) -> (res: Option<&B>)
        ensures
            match res {
                Some(b) => self.bus_handler() == Some(*b),
                None => self.bus_handler() is None,
            },
    {
        match &self.bus {
            Some(b) => Some(b),
            None => None,
        }
    }

    /// Puts `bus` in place of the current bus handler and returns the one it
    /// replaced.
    pub fn replace_bus(&mut self, bus: B) -> (old_bus: Option<B>)
        ensures
            final(self).bus_handler() == Some(bus),
            old_bus == old(self).bus_handler(),
    {
        let old_bus = self.bus.take();
        self.bus = Some(bus);
        old_bus
    }
}

/// What a component asks of the bus handler when it links call target
/// interfaces under a name.
pub struct LinkNameRequest {
    pub link_name: String,
    pub interfaces: Vec<CallTargetInterface>,
}

/// The interfaces held under the keys `reps`, if all of them hold one.
pub open spec fn resolve_targets(targets: Map<u32, CallTargetInterface>, reps: Seq<u32>) -> Option<Seq<CallTargetInterface>> {
    if forall|i: int| 0 <= i < reps.len() ==> targets.contains_key(#[trigger] reps[i]) {
        Some(reps.map_values(|r: u32| targets[r]))
    } else {
        None
    }
}

/// An interface registered under a key is what linking that key resolves to.
pub proof fn lemma_registered_interface_resolves(
    targets: Map<u32, CallTargetInterface>,
    rep: u32,
    interface: CallTargetInterface,
)
    ensures
        resolve_targets(targets.insert(rep, interface), seq![rep]) == Some(seq![interface]),
{
    let reps = seq![rep];
    assert(reps.map_values(|r: u32| targets.insert(rep, interface)[r]) =~= seq![interface]);
}

/// Once the interface under a key was dropped, linking that key fails.
pub proof fn lemma_dropped_interface_unresolvable(targets: Map<u32, CallTargetInterface>, rep: u32)
    ensures
        resolve_targets(targets.remove(rep), seq![rep]) is None,
{
    assert(seq![rep][0] == rep);
}

/// Registering an interface under a new key leaves what other keys resolve
/// to as it was.
pub proof fn lemma_register_keeps_other_links(
    targets: Map<u32, CallTargetInterface>,
    rep: u32,
    interface: CallTargetInterface,
    reps: Seq<u32>,
)
    requires
        !targets.contains_key(rep),
        !reps.contains(rep),
    ensures
        resolve_targets(targets.insert(rep, interface), reps) == resolve_targets(targets, reps),
{
    let t2 = targets.insert(rep, interface);
    assert forall|i: int| 0 <= i < reps.len() implies (t2.contains_key(#[trigger] reps[i]) <==> targets.contains_key(reps[i])) by {
        assert(reps[i] != rep);
    }
    if forall|i: int| 0 <= i < reps.len() ==> targets.contains_key(#[trigger] reps[i]) {
        assert(reps.map_values(|r: u32| t2[r]) =~= reps.map_values(|r: u32| targets[r]));
    }
}

/// An interface just registered in a table without child resources can be
/// removed: its key holds it and has no children.
pub proof fn lemma_registered_interface_removable(
    before: ResourceTable,
    after: ResourceTable,
    rep: u32,
    interface: CallTargetInterface,
)
    requires
        keys_with_children(before).is_empty(),
        keys_with_children(after) == keys_with_children(before),
        call_targets(after) == call_targets(before).insert(rep, interface),
    ensures
        call_targets(after).contains_key(rep) && !keys_with_children(after).contains(rep),
{
}

/// Registering an interface under a key that held nothing and then dropping
/// it gives back the keys and the interfaces held before.
pub proof fn lemma_register_then_drop_restores(
    live: Set<u32>,
    targets: Map<u32, CallTargetInterface>,
    rep: u32,
    interface: CallTargetInterface,
)
    requires
        !live.contains(rep),
        !targets.contains_key(rep),
    ensures
        live.insert(rep).remove(rep) == live,
        targets.insert(rep, interface).remove(rep) == targets,
{
    assert(live.insert(rep).remove(rep) =~= live);
    assert(targets.insert(rep, interface).remove(rep) =~= targets);
}

/// The state of a component store: its handlers and its resource table.
pub struct Ctx<B> {
    pub handler: Handler<B>,
    pub table: ResourceTable,
}

impl<B> Ctx<B> {
    /// Whether no resource of the table has child resources. The library
    /// never makes child resources, so a store made by `with_handler` and
    /// changed only through this type stays so.
    pub open spec fn without_children(&self) -> bool {
        keys_with_children(self.table).is_empty()
    }

    /// A store with the handlers `handler` and an empty resource table.
    pub fn with_handler(handler: Handler<B>) -> (res: Self)
        ensures
            res.handler == handler,
            live_keys(res.table).is_empty(),
            call_targets(res.table) == Map::<u32, CallTargetInterface>::empty(),
            res.without_children(),
            !table_full(res.table),
    {
        Ctx { handler, table: table_new() }
    }

    /// Registers a call target interface in the resource table and hands
    /// back the key of its resource, a key that held nothing before; the
    /// other keys keep what they held.
    pub fn new(&mut self, namespace: String, package: String, interface: String) -> (res: Result<u32, TableError>)
        ensures
            final(self).handler == old(self).handler,
            match res {
                Ok(rep) => !live_keys(old(self).table).contains(rep)
                    && !call_targets(old(self).table).contains_key(rep)
                    && live_keys(final(self).table) == live_keys(old(self).table).insert(rep)
                    && call_targets(final(self).table) == call_targets(old(self).table).insert(
                        rep,
                        CallTargetInterface { namespace, package, interface },
                    ),
                Err(e) => e == TableError::Full && final(self).table == old(self).table,
            },
            res is Err <==> table_full(old(self).table),
            keys_with_children(final(self).table) == keys_with_children(old(self).table),
    {
        table_push(&mut self.table, CallTargetInterface { namespace, package, interface })
    }

    /// Removes the call target interface under `rep` from the resource
    /// table; the other keys keep what they held. A key that holds nothing,
    /// or whose resource has children, leaves the table as it was.
    pub fn drop(&mut self, rep: u32) -> (res: Result<(), TableError>)
        ensures
            final(self).handler == old(self).handler,
            match res {
                Ok(()) => call_targets(old(self).table).contains_key(rep)
                    && call_targets(final(self).table) == call_targets(old(self).table).remove(rep)
                    && live_keys(final(self).table) == live_keys(old(self).table).remove(rep),
                Err(e) => call_targets(final(self).table) == call_targets(old(self).table)
                    && e != TableError::Full
                    && (e == TableError::NotPresent <==> !live_keys(old(self).table).contains(rep))
                    && (e == TableError::HasChildren <==> keys_with_children(old(self).table).contains(rep))
                    && (e == TableError::NotPresent || e == TableError::HasChildren ==> final(self).table == old(self).table)
                    && (e == TableError::WrongType ==> live_keys(final(self).table) == live_keys(old(self).table).remove(rep)),
            },
            res is Ok <==> (call_targets(old(self).table).contains_key(rep)
                && !keys_with_children(old(self).table).contains(rep)),
            res is Ok ==> !table_full(final(self).table),
            old(self).without_children() ==> final(self).without_children(),
    {
        table_delete(&mut self.table, rep)?;
        Ok(())
    }

    /// Looks up the call target interfaces under the keys `interfaces`, to
    /// be linked under `link_name` by the bus handler; fails on the first
    /// key that holds none.
    pub fn set_link_name(&self, link_name: String, interfaces: Vec<u32>) -> (res: Result<LinkNameRequest, TableError>)
        ensures
            match res {
                Ok(req) => req.link_name == link_name
                    && resolve_targets(call_targets(self.table), interfaces@) == Some(req.interfaces@),
                Err(e) => resolve_targets(call_targets(self.table), interfaces@) is None
                    && (e == TableError::NotPresent || e == TableError::WrongType),
            },
    {
        let ghost targets = call_targets(self.table);
        let mut resolved: Vec<CallTargetInterface> = Vec::new();
        let n = interfaces.len();
        for i in 0..n
            invariant
                n == interfaces@.len(),
                targets == call_targets(self.table),
                resolved@.len() == i,
                forall|j: int| 0 <= j < i ==> targets.contains_key(#[trigger] interfaces@[j])
                    && resolved@[j] == targets[interfaces@[j]],
        {
            match table_get(&self.table, interfaces[i]) {
                Ok(v) => resolved.push(v),
                Err(e) => {
                    assert(!targets.contains_key(interfaces@[i as int]));
                    return Err(e);
                },
            }
        }
        assert(resolved@ =~= interfaces@.map_values(|r: u32| targets[r]));
        Ok(LinkNameRequest { link_name, interfaces: resolved })
    }
}

/// A component instance, seen through the state of its store.
pub struct Instance<B> {
    ctx: Ctx<B>,
}

impl<B> Instance<B> {
    /// An instance whose store holds `ctx`.
    pub fn new(ctx: Ctx<B>) -> (res: Self)
        ensures
            res.ctx() == ctx,
    {
        Instance { ctx }
    }

    /// The state of the store of this instance.
    pub closed spec fn ctx(&self) -> Ctx<B> {
        self.ctx
    }

    /// The handlers of this instance.
    pub closed spec fn handler(&self) -> Handler<B> {
        self.ctx.handler
    }

    /// Gives mutable access to the handlers of this instance.
    pub fn handler_mut(&mut self) -> (res: &mut Handler<B>)
        ensures
            *res == old(self).handler(),
            final(self).handler() == *final(res),
            final(self).ctx().table == old(self).ctx().table,
    {
        &mut self.ctx.handler
    }

    /// Gives mutable access to the state of the store of this instance.
    pub fn ctx_mut(&mut self) -> (res: &mut Ctx<B>)
        ensures
            *res == old(self).ctx(),
            final(self).ctx() == *final(res),
    {
        &mut self.ctx
    }

    /// Sets the bus handler of this instance.
    pub fn bus(&mut self, bus: B) -> (res: &mut Self)
        ensures
            res.handler().bus_handler() == Some(bus),
            res.ctx().table == old(self).ctx().table,
            *final(self) == *final(res),
    {
        self.handler_mut().replace_bus(bus);
        self
    }
}

} // verus!
