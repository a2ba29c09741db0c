//! The interrupt dispatch table: at most one handler per interrupt number.
//!
//! The slots are those of `axplat::irq::HandlerTable`. What that table does
//! is taken on trust from its source and stated here over a map from
//! interrupt numbers to handlers.

use vstd::prelude::*;
use axplat::irq::HandlerTable;

verus! {

/// Number of interrupt numbers that the table has a slot for.
pub const MAX_IRQ_COUNT: usize = 1024;

#[verifier::external_type_specification]
#[verifier::external_body]
pub struct ExHandlerTable<const N: usize>(HandlerTable<N>);

/// An interrupt handler: the entry point that a slot of the table holds.
///
/// Function pointers are opaque to the verifier, so a handler is known to it
/// only by its identity.
#[verifier::external_body]
pub struct IrqCallback {
    pub entry: fn(),
}

/// The occupied slots of a handler table, each with the handler it holds.
pub uninterp spec fn table_slots(table: HandlerTable<1024>) -> Map<int, IrqCallback>;

/// `HandlerTable::new`: a table in which every slot is empty.
#[verifier::external_body]
fn table_new() -> (fresh: HandlerTable<1024>)
    ensures
        table_slots(fresh) =~= Map::empty(),
{
    HandlerTable::new()
}

/// `HandlerTable::register_handler`: fills the slot `irq` and returns `true`
/// if `irq` is below the table's size and the slot is empty; else returns
/// `false` and leaves the table as it was.
#[verifier::external_body]
fn table_register(table: &mut HandlerTable<1024>, irq: usize, handler: IrqCallback) -> (installed: bool)
    ensures
        installed == register_spec(table_slots(*old(table)), irq, handler).1,
        table_slots(*final(table)) == register_spec(table_slots(*old(table)), irq, handler).0,
{
    table.register_handler(irq, handler.entry)
}

/// `HandlerTable::unregister_handler`: empties the slot `irq` and returns the
/// handler it held; returns `None` if the slot was empty or `irq` is not
/// below the table's size.
#[verifier::external_body]
fn table_unregister(table: &mut HandlerTable<1024>, irq: usize) -> (previous: Option<IrqCallback>)
    ensures
        previous == unregister_spec(table_slots(*old(table)), irq).1,
        table_slots(*final(table)) == unregister_spec(table_slots(*old(table)), irq).0,
{
    match table.unregister_handler(irq) {
        Some(entry) => Some(IrqCallback { entry }),
        None => None,
    }
}

/// `HandlerTable::handle`: calls the handler in the slot `irq` and returns
/// `true` once it has returned; returns `false` if the slot is empty or `irq`
/// is not below the table's size. Nothing is claimed of what the handler
/// does.
#[verifier::external_body]
fn table_handle(table: &HandlerTable<1024>, irq: usize) -> (handled: bool)
    ensures
        handled == dispatch_spec(table_slots(*table), irq).is_some(),
{
    table.handle(irq)
}

/// Registration: succeeds on an empty slot of an interrupt number in range,
/// and then fills it. Nothing is overwritten.
pub open spec fn register_spec(slots: Map<int, IrqCallback>, irq: usize, handler: IrqCallback) -> (
    Map<int, IrqCallback>,
    bool,
) {
    if irq < MAX_IRQ_COUNT && !slots.contains_key(irq as int) {
        (slots.insert(irq as int, handler), true)
    } else {
        (slots, false)
    }
}

/// Unregistration: empties the slot and gives the handler it held.
pub open spec fn unregister_spec(slots: Map<int, IrqCallback>, irq: usize) -> (
    Map<int, IrqCallback>,
    Option<IrqCallback>,
) {
    if irq < MAX_IRQ_COUNT && slots.contains_key(irq as int) {
        (slots.remove(irq as int), Some(slots[irq as int]))
    } else {
        (slots, None)
    }
}

/// The handler that a dispatch of `irq` invokes, if there is one.
pub open spec fn dispatch_spec(slots: Map<int, IrqCallback>, irq: usize) -> Option<IrqCallback> {
    if irq < MAX_IRQ_COUNT && slots.contains_key(irq as int) {
        Some(slots[irq as int])
    } else {
        None
    }
}

/// The table of interrupt handlers.
pub struct IrqTable {
    table: HandlerTable<1024>,
}

impl IrqTable {
    /// The occupied slots, each with its handler.
    pub closed spec fn view(&self) -> Map<int, IrqCallback> {
        table_slots(self.table)
    }

    /// A table without handlers.
    pub fn new() -> (table: Self)
        ensures
            table@ == Map::<int, IrqCallback>::empty(),
    {
        IrqTable { table: table_new() }
    }

    /// Installs `handler` for `irq`. Fails, changing nothing, if `irq` is out
    /// of range or already has a handler.
    pub fn register(&mut self, irq: usize, handler: IrqCallback) -> (installed: bool)
        ensures
            installed == register_spec(old(self)@, irq, handler).1,
            final(self)@ == register_spec(old(self)@, irq, handler).0,
    {
        table_register(&mut self.table, irq, handler)
    }

    /// Removes the handler of `irq` and returns it, if there was one.
    pub fn unregister(&mut self, irq: usize) -> (previous: Option<IrqCallback>)
        ensures
            previous == unregister_spec(old(self)@, irq).1,
            final(self)@ == unregister_spec(old(self)@, irq).0,
    {
        table_unregister(&mut self.table, irq)
    }

    /// Runs the handler of `irq`, if there is one, and says whether there
    /// was. The table stays as it is.
    pub fn dispatch(&self, irq: usize) -> (handled: bool)
        ensures
            handled == dispatch_spec(self@, irq).is_some(),
    {
        table_handle(&self.table, irq)
    }
}

/// A second registration for an interrupt number fails and leaves the first
/// handler in place, so that a dispatch still runs the first.
pub proof fn lemma_second_register_fails(
    slots: Map<int, IrqCallback>,
    irq: usize,
    first: IrqCallback,
    second: IrqCallback,
)
    requires
        register_spec(slots, irq, first).1,
    ensures
        register_spec(register_spec(slots, irq, first).0, irq, second) == (
            register_spec(slots, irq, first).0,
            false,
        ),
        dispatch_spec(register_spec(slots, irq, first).0, irq) == Some(first),
{
}

/// Unregistering an interrupt number without a handler gives nothing and
/// changes nothing.
pub proof fn lemma_unregister_empty(slots: Map<int, IrqCallback>, irq: usize)
    requires
        !slots.contains_key(irq as int),
    ensures
        unregister_spec(slots, irq) == (slots, None::<IrqCallback>),
{
}

/// After a registration, unregistering gives the registered handler back,
/// restores the slots as they were, and a dispatch then finds no handler.
pub proof fn lemma_unregister_after_register(slots: Map<int, IrqCallback>, irq: usize, handler: IrqCallback)
    requires
        register_spec(slots, irq, handler).1,
    ensures
        unregister_spec(register_spec(slots, irq, handler).0, irq) == (slots, Some(handler)),
        dispatch_spec(unregister_spec(register_spec(slots, irq, handler).0, irq).0, irq) is None,
{
}

/// Registration and unregistration of one interrupt number leave the slot of
/// every other number as it was.
pub proof fn lemma_other_slots_untouched(slots: Map<int, IrqCallback>, irq: usize, other: usize, handler: IrqCallback)
    requires
        irq != other,
    ensures
        dispatch_spec(register_spec(slots, irq, handler).0, other) == dispatch_spec(slots, other),
        dispatch_spec(unregister_spec(slots, irq).0, other) == dispatch_spec(slots, other),
{
}

} // verus!
