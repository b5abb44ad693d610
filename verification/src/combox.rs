//! The object box: one host object, the table pointers through which callers
//! reach it, and the count of the references that callers hold.
//!
//! The box lies at an address. The table pointer of the interface at
//! position `i` lies `i` pointers above it. A caller holds the address of a
//! table pointer; taking off the offset of that interface gives the address
//! of the box.

use vstd::prelude::*;
use crate::raw::{E_NOINTERFACE, GUID, HRESULT, RawComPtr, S_OK};
use crate::type_system::TypeSystemName;

verus! {

/// The size of a pointer in an object, in bytes: that of the machine the
/// objects live on.
pub open spec fn spec_pointer_size() -> int {
    vstd::layout::size_of::<usize>() as int
}

/// A pointer takes four bytes or eight.
pub proof fn lemma_pointer_size()
    ensures
        spec_pointer_size() == 4 || spec_pointer_size() == 8,
        spec_pointer_size() * 8 == usize::BITS,
{
    broadcast use vstd::layout::layout_of_primitives;

}

/// The size of a pointer in an object, in bytes.
pub fn pointer_size() -> (size: usize)
    ensures
        size == spec_pointer_size(),
        size == 4 || size == 8,
{
    proof {
        lemma_pointer_size();
    }
    core::mem::size_of::<usize>()
}

/// One table pointer of an object: the interface that it serves and the type
/// system under which it serves it.
#[derive(Debug, Clone, Copy, PartialEq, Eq, Structural, Hash)]
pub struct VtableEntry {
    pub iid: GUID,
    pub ts: TypeSystemName,
}

/// The table pointers of the objects of a host type, in the order in which
/// they lie in the object.
#[derive(Debug)]
pub struct VtableList {
    pub entries: Vec<VtableEntry>,
}

/// The offset of the table pointer at the given position.
pub open spec fn spec_offset_of(index: int) -> int {
    index * spec_pointer_size()
}

/// The address of the table pointer that lies at an offset in the box at
/// the address `base`.
pub open spec fn spec_table_pointer(base: int, offset: int) -> int {
    base + offset
}

/// The address of the box whose table pointer at the given offset lies at
/// the address `table_pointer`.
pub open spec fn spec_recover(table_pointer: int, offset: int) -> int {
    table_pointer - offset
}

/// Whether a list of table pointers can be the layout of an object: it
/// begins with the table of the base protocol, and its offsets fit.
pub open spec fn spec_valid_entries(entries: Seq<VtableEntry>) -> bool {
    &&& entries.len() >= 1
    &&& entries[0].iid == GUID::spec_iid_iunknown()
    &&& entries.len() * spec_pointer_size() <= usize::MAX
}

/// The first position from `from` on whose table serves the interface under
/// the type system.
pub open spec fn spec_first_match(
    entries: Seq<VtableEntry>,
    riid: GUID,
    ts: TypeSystemName,
    from: int,
) -> Option<int>
    decreases entries.len() - from,
{
    if from < 0 || from >= entries.len() {
        None
    } else if entries[from].iid == riid && entries[from].ts == ts {
        Some(from)
    } else {
        spec_first_match(entries, riid, ts, from + 1)
    }
}

/// The position of the table that answers a query: the first table for the
/// identifier of the base protocol, whatever the type system, and else the
/// first table that serves the interface under the type system.
pub open spec fn spec_find(entries: Seq<VtableEntry>, riid: GUID, ts: TypeSystemName) -> Option<
    int,
> {
    if riid == GUID::spec_iid_iunknown() {
        Some(0)
    } else {
        spec_first_match(entries, riid, ts, 0)
    }
}

/// A match lies in the list, at or after the position where the search
/// began, and serves what was asked for.
pub proof fn lemma_first_match_in_range(
    entries: Seq<VtableEntry>,
    riid: GUID,
    ts: TypeSystemName,
    from: int,
)
    ensures
        spec_first_match(entries, riid, ts, from) matches Some(k) ==> from <= k < entries.len()
            && entries[k].iid == riid && entries[k].ts == ts,
    decreases entries.len() - from,
{
    if 0 <= from < entries.len() && !(entries[from].iid == riid && entries[from].ts == ts) {
        lemma_first_match_in_range(entries, riid, ts, from + 1);
    }
}

impl VtableList {
    /// Whether the list can be the layout of an object.
    pub open spec fn wf(&self) -> bool {
        spec_valid_entries(self.entries@)
    }

    /// The size of the table pointers of an object, in bytes.
    pub open spec fn spec_size(&self) -> int {
        self.entries@.len() * spec_pointer_size()
    }

    /// The layout with the given table pointers, where they can be the
    /// layout of an object.
    pub fn new(entries: Vec<VtableEntry>) -> (list: Option<VtableList>)
        ensures
            list is Some <==> spec_valid_entries(entries@),
            list matches Some(l) ==> l.entries == entries,
    {
        let size = pointer_size();
        if entries.len() >= 1 && entries[0].iid == GUID::iid_iunknown() && entries.len()
            <= usize::MAX / size {
            Some(VtableList { entries })
        } else {
            None
        }
    }

    /// The number of table pointers.
    pub fn len(&self) -> (n: usize)
        ensures
            n == self.entries@.len(),
    {
        self.entries.len()
    }

    /// The offset of the table pointer at the given position.
    pub fn offset_of(&self, index: usize) -> (offset: usize)
        requires
            self.wf(),
            index < self.entries@.len(),
        ensures
            offset == spec_offset_of(index as int),
    {
        let size = pointer_size();
        assert(index * size <= self.entries@.len() * size) by (nonlinear_arith)
            requires
                index < self.entries@.len(),
                size > 0,
        ;
        index * size
    }

    /// The position of the table that answers a query.
    pub fn find(&self, riid: GUID, ts: TypeSystemName) -> (found: Option<usize>)
        requires
            self.wf(),
        ensures
            match found {
                Some(index) => spec_find(self.entries@, riid, ts) == Some(index as int) && index
                    < self.entries@.len(),
                None => spec_find(self.entries@, riid, ts) is None,
            },
    {
        if riid == GUID::iid_iunknown() {
            return Some(0);
        }
        let mut i: usize = 0;
        while i < self.entries.len()
            invariant
                i <= self.entries.len(),
                riid != GUID::spec_iid_iunknown(),
                spec_first_match(self.entries@, riid, ts, 0) == spec_first_match(
                    self.entries@,
                    riid,
                    ts,
                    i as int,
                ),
            decreases self.entries.len() - i,
        {
            if self.entries[i].iid == riid && self.entries[i].ts == ts {
                return Some(i);
            }
            i += 1;
        }
        None
    }
}

/// The address of the table pointer that lies at an offset in the box at the
/// address `base`.
pub fn table_pointer(base: usize, offset: usize) -> (ptr: RawComPtr)
    requires
        base + offset <= usize::MAX,
    ensures
        ptr.addr == spec_table_pointer(base as int, offset as int),
{
    RawComPtr { addr: base + offset }
}

/// The address of the box whose table pointer at the given offset the
/// caller holds.
pub fn recover(self_vtable: RawComPtr, offset: usize) -> (base: usize)
    requires
        offset <= self_vtable.addr,
    ensures
        base == spec_recover(self_vtable.addr as int, offset as int),
{
    self_vtable.addr - offset
}

/// Taking the offset of an interface off the address of its table pointer
/// gives the address of the box, for every box and every offset.
pub proof fn lemma_recover_table_pointer(base: int, offset: int)
    ensures
        spec_recover(spec_table_pointer(base, offset), offset) == base,
{
}

/// An operation on the count of references.
#[derive(Debug, Clone, Copy, PartialEq, Eq, Structural, Hash)]
pub enum RefOp {
    AddRef,
    Release,
}

/// The count after one operation.
pub open spec fn spec_step(count: int, op: RefOp) -> int {
    match op {
        RefOp::AddRef => count + 1,
        RefOp::Release => count - 1,
    }
}

/// The count after a run of operations, in the order in which they take
/// effect.
pub open spec fn spec_run(count: int, ops: Seq<RefOp>) -> int
    decreases ops.len(),
{
    if ops.len() == 0 {
        count
    } else {
        spec_step(spec_run(count, ops.drop_last()), ops.last())
    }
}

/// Whether a run is made of pairs, each an `AddRef` and a `Release` that
/// comes after it: no part of the run from its start on holds more of
/// `Release` than of `AddRef`, and the whole run holds as many of each.
pub open spec fn spec_paired(ops: Seq<RefOp>) -> bool {
    &&& forall|n: int| 0 <= n <= ops.len() ==> #[trigger] spec_run(0, ops.take(n)) >= 0
    &&& spec_run(0, ops) == 0
}

/// A run changes the count by the same amount wherever it starts.
pub proof fn lemma_run_shift(count: int, ops: Seq<RefOp>)
    ensures
        spec_run(count, ops) == count + spec_run(0, ops),
    decreases ops.len(),
{
    if ops.len() > 0 {
        lemma_run_shift(count, ops.drop_last());
    }
}

/// However the operations of any number of pairs, each an `AddRef` and the
/// `Release` after it, fall between each other, they leave the count as it
/// was, and the count never falls below what it was: a box with a reference
/// to it is not destroyed.
pub proof fn lemma_paired_run_keeps_count(count: int, ops: Seq<RefOp>)
    requires
        count >= 1,
        spec_paired(ops),
    ensures
        spec_run(count, ops) == count,
        forall|n: int| 0 <= n <= ops.len() ==> #[trigger] spec_run(count, ops.take(n)) >= count,
{
    lemma_run_shift(count, ops);
    assert forall|n: int| 0 <= n <= ops.len() implies #[trigger] spec_run(count, ops.take(n))
        >= count by {
        lemma_run_shift(count, ops.take(n));
        assert(spec_run(0, ops.take(n)) >= 0);
    }
}

/// In a run of operations on a box that is live before each of them, only
/// the last operation can bring the count to zero, and it is a `Release`:
/// no `Release` but the one that ends the run sees the count reach zero, and
/// where the run ends at zero, that one does.
pub proof fn lemma_one_release_sees_zero(count: int, ops: Seq<RefOp>)
    requires
        forall|k: int| 0 <= k < ops.len() ==> #[trigger] spec_run(count, ops.take(k)) >= 1,
    ensures
        forall|n: int|
            0 <= n < ops.len() && #[trigger] spec_run(count, ops.take(n + 1)) == 0 ==> n
                == ops.len() - 1 && ops[n] == RefOp::Release,
        ops.len() > 0 && spec_run(count, ops) == 0 ==> ops.last() == RefOp::Release && spec_run(
            count,
            ops.take(ops.len() as int),
        ) == 0,
{
    assert forall|n: int|
        0 <= n < ops.len() && #[trigger] spec_run(count, ops.take(n + 1)) == 0 implies n
        == ops.len() - 1 && ops[n] == RefOp::Release by {
        if n + 1 < ops.len() {
            assert(spec_run(count, ops.take(n + 1)) >= 1);
        }
        assert(ops.take(n + 1).drop_last() =~= ops.take(n));
        assert(ops.take(n + 1).last() == ops[n]);
        assert(spec_run(count, ops.take(n)) >= 1);
    }
    if ops.len() > 0 && spec_run(count, ops) == 0 {
        assert(ops.take(ops.len() as int) =~= ops);
        assert(ops.drop_last() =~= ops.take(ops.len() - 1));
        assert(spec_run(count, ops.take(ops.len() - 1)) >= 1);
    }
}

/// The object box: the host object, the table pointers of its interfaces
/// and the count of the references to it.
#[derive(Debug)]
pub struct ComBox<T> {
    /// The address of the box.
    pub base: usize,
    /// The table pointers.
    pub vtables: VtableList,
    /// The number of references that callers hold.
    pub ref_count: u32,
    /// The host object, until the box is destroyed.
    pub value: Option<T>,
}

impl<T> ComBox<T> {
    /// Whether the box is as its operations leave it: the layout is valid,
    /// the table pointers have addresses, and the host object is there for
    /// as long as a reference is.
    pub open spec fn wf(&self) -> bool {
        &&& self.vtables.wf()
        &&& self.base > 0
        &&& self.base + self.vtables.spec_size() <= usize::MAX
        &&& (self.ref_count == 0 <==> self.value is None)
    }

    /// Whether the box has not been destroyed.
    pub open spec fn spec_is_live(&self) -> bool {
        self.value is Some
    }

    /// The address of the table pointer at the given position.
    pub open spec fn spec_vtable_ptr(&self, index: int) -> RawComPtr {
        RawComPtr { addr: spec_table_pointer(self.base as int, spec_offset_of(index)) as usize }
    }

    /// Whether the pointer is the address of the table pointer of this box
    /// that lies at the offset.
    pub open spec fn is_table_pointer(&self, self_vtable: RawComPtr, offset: int) -> bool {
        exists|index: int|
            0 <= index < self.vtables.entries@.len() && offset == #[trigger] spec_offset_of(index)
                && self_vtable.addr == spec_table_pointer(self.base as int, offset)
    }

    /// What a capability query returns: the address of the table pointer
    /// that answers it, or null.
    pub open spec fn spec_query(&self, riid: GUID, ts: TypeSystemName) -> RawComPtr {
        match spec_find(self.vtables.entries@, riid, ts) {
            Some(k) => self.spec_vtable_ptr(k),
            None => RawComPtr::spec_null(),
        }
    }

    /// The status of a capability query: success where it is answered, and
    /// the code for an interface that the object does not support where it
    /// is not.
    pub open spec fn spec_query_status(&self, riid: GUID, ts: TypeSystemName) -> HRESULT {
        match spec_find(self.vtables.entries@, riid, ts) {
            Some(_) => HRESULT { hr: S_OK },
            None => HRESULT { hr: E_NOINTERFACE },
        }
    }

    /// The box after a capability query: with one more reference where the
    /// query is answered, and as it was where it is not.
    pub open spec fn spec_after_query(self, riid: GUID, ts: TypeSystemName) -> ComBox<T> {
        match spec_find(self.vtables.entries@, riid, ts) {
            Some(_) => ComBox {
                base: self.base,
                vtables: self.vtables,
                ref_count: (self.ref_count + 1) as u32,
                value: self.value,
            },
            None => self,
        }
    }

    /// A new box at the given address, with one reference to it.
    pub fn new(value: T, vtables: VtableList, base: usize) -> (new_box: ComBox<T>)
        requires
            vtables.wf(),
            base > 0,
            base + vtables.spec_size() <= usize::MAX,
        ensures
            new_box.wf(),
            new_box.base == base,
            new_box.vtables == vtables,
            new_box.ref_count == 1,
            new_box.value == Some(value),
    {
        ComBox { base, vtables, ref_count: 1, value: Some(value) }
    }

    /// Whether the box has not been destroyed.
    #[verifier::when_used_as_spec(spec_is_live)]
    pub fn is_live(&self) -> (live: bool)
        ensures
            live == self.spec_is_live(),
    {
        self.value.is_some()
    }

    /// The address of the table pointer at the given position. The count of
    /// references stays as it is.
    pub fn vtable_ptr(&self, index: usize) -> (ptr: RawComPtr)
        requires
            self.wf(),
            index < self.vtables.entries@.len(),
        ensures
            ptr == self.spec_vtable_ptr(index as int),
            self.is_table_pointer(ptr, spec_offset_of(index as int)),
            ptr.addr != 0,
    {
        let offset = self.vtables.offset_of(index);
        proof {
            lemma_offset_in_box(*self, index as int);
        }
        table_pointer(self.base, offset)
    }

    /// The address of the box that the caller of a thunk reached: the
    /// pointer that the thunk received, less the offset of the thunk's
    /// interface. The count of references stays as it is.
    pub fn recover_from(&self, self_vtable: RawComPtr, offset: usize) -> (base: usize)
        requires
            self.wf(),
            self.is_table_pointer(self_vtable, offset as int),
        ensures
            base == self.base,
    {
        recover(self_vtable, offset)
    }

    /// Counts one more reference and returns the new count.
    pub fn add_ref(&mut self) -> (count: u32)
        requires
            old(self).wf(),
            old(self).is_live(),
            old(self).ref_count < u32::MAX,
        ensures
            final(self).wf(),
            final(self).is_live(),
            count == spec_step(old(self).ref_count as int, RefOp::AddRef),
            final(self).ref_count == count,
            final(self).value == old(self).value,
            final(self).base == old(self).base,
            final(self).vtables == old(self).vtables,
    {
        self.ref_count = self.ref_count + 1;
        self.ref_count
    }

    /// Counts one reference less and returns the new count. Where that is
    /// zero, the host object has been destroyed.
    pub fn release(&mut self) -> (count: u32)
        requires
            old(self).wf(),
            old(self).is_live(),
        ensures
            final(self).wf(),
            count == spec_step(old(self).ref_count as int, RefOp::Release),
            final(self).ref_count == count,
            count > 0 ==> final(self).value == old(self).value,
            count == 0 ==> final(self).value is None,
            final(self).base == old(self).base,
            final(self).vtables == old(self).vtables,
    {
        self.ref_count = self.ref_count - 1;
        if self.ref_count == 0 {
            self.value = None;
        }
        self.ref_count
    }

    /// Answers a capability query. Where the object serves the interface
    /// under the type system, `out` receives the address of that table
    /// pointer, which counts as one more reference, and the status is
    /// success. Where it does not, `out` receives null, the count stays, and
    /// the status says that there is no such interface.
    pub fn query_interface(&mut self, riid: GUID, ts: TypeSystemName, out: &mut RawComPtr) -> (status:
        HRESULT)
        requires
            old(self).wf(),
            old(self).is_live(),
            old(self).ref_count < u32::MAX,
        ensures
            final(self).wf(),
            final(self).is_live(),
            *final(out) == old(self).spec_query(riid, ts),
            status == old(self).spec_query_status(riid, ts),
            *final(self) == old(self).spec_after_query(riid, ts),
            spec_find(old(self).vtables.entries@, riid, ts) is Some ==> status == (HRESULT {
                hr: S_OK,
            }) && final(self).ref_count == old(self).ref_count + 1 && !final(out).is_null(),
            spec_find(old(self).vtables.entries@, riid, ts) is None ==> status == (HRESULT {
                hr: E_NOINTERFACE,
            }) && final(self).ref_count == old(self).ref_count,
            final(self).value == old(self).value,
            final(self).base == old(self).base,
            final(self).vtables == old(self).vtables,
    {
        match self.vtables.find(riid, ts) {
            Some(index) => {
                *out = self.vtable_ptr(index);
                self.ref_count = self.ref_count + 1;
                HRESULT { hr: S_OK }
            },
            None => {
                *out = RawComPtr::null();
                HRESULT { hr: E_NOINTERFACE }
            },
        }
    }
}

/// Taking the offset of an interface off the address of its table pointer
/// gives the address of the box, for every box and every interface of it.
pub proof fn lemma_offset_correctness<T>(the_box: ComBox<T>, index: int)
    requires
        the_box.wf(),
        0 <= index < the_box.vtables.entries@.len(),
    ensures
        the_box.is_table_pointer(the_box.spec_vtable_ptr(index), spec_offset_of(index)),
        spec_recover(the_box.spec_vtable_ptr(index).addr as int, spec_offset_of(index))
            == the_box.base,
{
    lemma_offset_in_box(the_box, index);
}

/// The table pointers of a box lie in the box.
proof fn lemma_offset_in_box<T>(the_box: ComBox<T>, index: int)
    requires
        the_box.wf(),
        0 <= index < the_box.vtables.entries@.len(),
    ensures
        0 <= spec_offset_of(index) <= the_box.vtables.spec_size(),
        the_box.spec_vtable_ptr(index).addr == the_box.base + spec_offset_of(index),
{
    lemma_pointer_size();
    let size = spec_pointer_size();
    assert(0 <= index * size <= the_box.vtables.entries@.len() * size) by (nonlinear_arith)
        requires
            0 <= index < the_box.vtables.entries@.len(),
            size > 0,
    ;
}

/// A query for the identifier of the base protocol gives the same pointer
/// through whichever table of the object it arrives and under whichever
/// type system: the address of the first table pointer, from which the
/// offset of the first table leads back to the box.
pub proof fn lemma_query_identity<T>(
    the_box: ComBox<T>,
    first: TypeSystemName,
    second: TypeSystemName,
)
    requires
        the_box.wf(),
    ensures
        the_box.spec_query(GUID::spec_iid_iunknown(), first) == the_box.spec_query(
            GUID::spec_iid_iunknown(),
            second,
        ),
        the_box.spec_query(GUID::spec_iid_iunknown(), first) == the_box.spec_vtable_ptr(0),
        spec_recover(
            the_box.spec_query(GUID::spec_iid_iunknown(), first).addr as int,
            spec_offset_of(0),
        ) == the_box.base,
{
    lemma_offset_in_box(the_box, 0);
}

/// Two queries for the identifier of the base protocol, one through each of
/// two tables of a live box that has room for two more references: both
/// arrive at the box, both succeed, both give the address of the first table
/// pointer, from which the offset of the first table leads back to the box,
/// and each counts one reference.
pub proof fn lemma_base_query_through_two_tables<T>(
    the_box: ComBox<T>,
    first: int,
    second: int,
    first_ts: TypeSystemName,
    second_ts: TypeSystemName,
)
    requires
        the_box.wf(),
        the_box.is_live(),
        0 <= first < the_box.vtables.entries@.len(),
        0 <= second < the_box.vtables.entries@.len(),
        first != second,
        the_box.ref_count + 2 <= u32::MAX,
    ensures
        ({
            let iid = GUID::spec_iid_iunknown();
            let after_one = the_box.spec_after_query(iid, first_ts);
            let after_two = after_one.spec_after_query(iid, second_ts);
            &&& the_box.is_table_pointer(the_box.spec_vtable_ptr(first), spec_offset_of(first))
            &&& spec_recover(the_box.spec_vtable_ptr(first).addr as int, spec_offset_of(first))
                == the_box.base
            &&& after_one.wf() && after_one.is_live()
            &&& after_one.is_table_pointer(after_one.spec_vtable_ptr(second), spec_offset_of(second))
            &&& spec_recover(after_one.spec_vtable_ptr(second).addr as int, spec_offset_of(second))
                == the_box.base
            &&& the_box.spec_query_status(iid, first_ts) == (HRESULT { hr: S_OK })
            &&& after_one.spec_query_status(iid, second_ts) == (HRESULT { hr: S_OK })
            &&& the_box.spec_query(iid, first_ts) == the_box.spec_vtable_ptr(0)
            &&& after_one.spec_query(iid, second_ts) == the_box.spec_vtable_ptr(0)
            &&& !the_box.spec_vtable_ptr(0).is_null()
            &&& spec_recover(the_box.spec_vtable_ptr(0).addr as int, spec_offset_of(0))
                == the_box.base
            &&& after_one.ref_count == the_box.ref_count + 1
            &&& after_two.ref_count == the_box.ref_count + 2
            &&& after_two.wf() && after_two.is_live()
            &&& after_two.value == the_box.value
        }),
{
    let iid = GUID::spec_iid_iunknown();
    let after_one = the_box.spec_after_query(iid, first_ts);
    lemma_offset_correctness(the_box, first);
    lemma_offset_correctness(after_one, second);
    lemma_offset_in_box(the_box, 0);
    lemma_offset_in_box(the_box, second);
    lemma_offset_in_box(after_one, second);
}

/// A query that is answered gives the address of a table pointer of the
/// same box, one that serves what was asked for, and the offset of that
/// table leads back to the box.
pub proof fn lemma_query_stays_in_box<T>(the_box: ComBox<T>, riid: GUID, ts: TypeSystemName)
    requires
        the_box.wf(),
    ensures
        spec_find(the_box.vtables.entries@, riid, ts) matches Some(k) ==> {
            &&& 0 <= k < the_box.vtables.entries@.len()
            &&& the_box.spec_query(riid, ts) == the_box.spec_vtable_ptr(k)
            &&& spec_recover(the_box.spec_query(riid, ts).addr as int, spec_offset_of(k))
                == the_box.base
            &&& riid != GUID::spec_iid_iunknown() ==> the_box.vtables.entries@[k].iid == riid
                && the_box.vtables.entries@[k].ts == ts
        },
{
    lemma_first_match_in_range(the_box.vtables.entries@, riid, ts, 0);
    match spec_find(the_box.vtables.entries@, riid, ts) {
        Some(k) => {
            lemma_offset_in_box(the_box, k);
        },
        None => {},
    }
}

} // verus!
