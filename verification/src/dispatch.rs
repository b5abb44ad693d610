//! What a thunk does when it is called: it gets the object back from the
//! pointer it received, turns the wire argument into the host argument,
//! calls the host method, and turns the result into a status and an out
//! value.

use vstd::prelude::*;
use crate::combox::{ComBox, spec_find};
use crate::raw::{ComError, ComResult, E_FAIL, E_NOINTERFACE, GUID, HRESULT, RawComPtr, S_OK};
use crate::type_system::{ExternDefault, ExternInput, ExternOutput, TypeSystem, TypeSystemName};

verus! {

/// The status that a failure crosses the boundary with: its own code where
/// that is a failure code, and the code of an unspecified failure otherwise.
pub open spec fn spec_failure_code(error: ComError) -> HRESULT {
    if error.hresult.hr < 0 {
        error.hresult
    } else {
        HRESULT { hr: E_FAIL }
    }
}

/// The status that a failure crosses the boundary with.
pub fn failure_code(error: ComError) -> (status: HRESULT)
    ensures
        status == spec_failure_code(error),
        !status.is_success(),
{
    if error.hresult.hr < 0 {
        error.hresult
    } else {
        HRESULT { hr: E_FAIL }
    }
}

/// A method of a host object as its thunk calls it: with one argument and
/// one result, each with a marshaling contract under the type system. A
/// method with several arguments or several results takes or gives them as
/// one value, whose contract converts each of them and fails where one of
/// them fails.
pub trait ComMethod<TS: TypeSystem> {
    /// The type of the host object.
    type Host;

    /// The host type of the argument.
    type Input: ExternInput<TS>;

    /// The host type of the result.
    type Output: ExternOutput<TS>;

    /// Calls the method on the host object.
    fn invoke(host: &mut Self::Host, input: <Self::Input as ExternInput<TS>>::Owned) -> ComResult<
        Self::Output,
    >;
}

/// A method of a host object that only reads the object, as its thunk calls
/// it.
pub trait ConstComMethod<TS: TypeSystem> {
    /// The type of the host object.
    type Host;

    /// The host type of the argument.
    type Input: ExternInput<TS>;

    /// The host type of the result.
    type Output: ExternOutput<TS>;

    /// Calls the method on the host object.
    fn invoke(host: &Self::Host, input: <Self::Input as ExternInput<TS>>::Owned) -> ComResult<
        Self::Output,
    >;
}

/// The status and the out value for a result of the host method: the wire
/// value of the result and success; or, where the method failed or its
/// result has no wire value, the zero value and the status of the failure.
pub open spec fn spec_return<TS: TypeSystem, R: ExternOutput<TS>>(result: ComResult<R>) -> (
    HRESULT,
    R::ForeignType,
) where R::ForeignType: ExternDefault {
    match result {
        Err(e) => (spec_failure_code(e), <R::ForeignType as ExternDefault>::spec_extern_default()),
        Ok(value) => match value.spec_into_foreign_output() {
            Err(e) => (
                spec_failure_code(e),
                <R::ForeignType as ExternDefault>::spec_extern_default(),
            ),
            Ok(wire) => (HRESULT { hr: S_OK }, wire),
        },
    }
}

/// Turns the result of the host method into the status, which it returns,
/// and the out value, which it writes.
pub fn return_result<TS: TypeSystem, R: ExternOutput<TS>>(
    result: ComResult<R>,
    out: &mut R::ForeignType,
) -> (status: HRESULT) where R::ForeignType: ExternDefault
    ensures
        (status, *final(out)) == spec_return::<TS, R>(result),
{
    match result {
        Err(e) => {
            *out = <R::ForeignType as ExternDefault>::extern_default();
            failure_code(e)
        },
        Ok(value) => match value.into_foreign_output() {
            Err(e) => {
                *out = <R::ForeignType as ExternDefault>::extern_default();
                failure_code(e)
            },
            Ok(wire) => {
                *out = wire;
                HRESULT { hr: S_OK }
            },
        },
    }
}

/// Calls a host method with a wire argument. Where the argument has no host
/// value, the method is not called: the host object stays as it is, the out
/// value is the zero value, and the status is that of the failure. Where it
/// has one, the method is called with it, and the status and the out value
/// are those of `spec_return` for what the method returned.
pub fn call_method<TS: TypeSystem, M: ComMethod<TS>>(
    host: &mut M::Host,
    wire: <M::Input as ExternInput<TS>>::ForeignType,
    out: &mut <M::Output as ExternOutput<TS>>::ForeignType,
) -> (status: HRESULT) where <M::Output as ExternOutput<TS>>::ForeignType: ExternDefault
    ensures
        match <M::Input as ExternInput<TS>>::spec_from_foreign_parameter(wire) {
            Err(e) => {
                &&& status == spec_failure_code(e)
                &&& !status.is_success()
                &&& *final(out) == <<M::Output as ExternOutput<
                    TS,
                >>::ForeignType as ExternDefault>::spec_extern_default()
                &&& *final(host) == *old(host)
            },
            Ok(_) => exists|result: ComResult<M::Output>|
                (status, *final(out)) == #[trigger] spec_return::<TS, M::Output>(result),
        },
{
    *out = <<M::Output as ExternOutput<TS>>::ForeignType as ExternDefault>::extern_default();
    match <M::Input as ExternInput<TS>>::from_foreign_parameter(wire) {
        Err(e) => failure_code(e),
        Ok(input) => {
            let result = M::invoke(host, input);
            let ghost returned = result;
            let status = return_result::<TS, M::Output>(result, out);
            assert((status, *out) == spec_return::<TS, M::Output>(returned));
            status
        },
    }
}

/// Calls a host method that only reads the host object, with a wire
/// argument. Where the argument has no host value, the method is not called:
/// the out value is the zero value, and the status is that of the failure.
/// Where it has one, the method is called with it, and the status and the
/// out value are those of `spec_return` for what the method returned.
pub fn call_const_method<TS: TypeSystem, M: ConstComMethod<TS>>(
    host: &M::Host,
    wire: <M::Input as ExternInput<TS>>::ForeignType,
    out: &mut <M::Output as ExternOutput<TS>>::ForeignType,
) -> (status: HRESULT) where <M::Output as ExternOutput<TS>>::ForeignType: ExternDefault
    ensures
        match <M::Input as ExternInput<TS>>::spec_from_foreign_parameter(wire) {
            Err(e) => {
                &&& status == spec_failure_code(e)
                &&& !status.is_success()
                &&& *final(out) == <<M::Output as ExternOutput<
                    TS,
                >>::ForeignType as ExternDefault>::spec_extern_default()
            },
            Ok(_) => exists|result: ComResult<M::Output>|
                (status, *final(out)) == #[trigger] spec_return::<TS, M::Output>(result),
        },
{
    *out = <<M::Output as ExternOutput<TS>>::ForeignType as ExternDefault>::extern_default();
    match <M::Input as ExternInput<TS>>::from_foreign_parameter(wire) {
        Err(e) => failure_code(e),
        Ok(input) => {
            let result = M::invoke(host, input);
            let ghost returned = result;
            let status = return_result::<TS, M::Output>(result, out);
            assert((status, *out) == spec_return::<TS, M::Output>(returned));
            status
        },
    }
}

/// The thunk of the capability query of the interface whose table pointer
/// lies at `offset`: gets the box back from the pointer and asks it. The
/// answer is that of the box, whatever the table through which the query
/// arrived.
pub fn query_interface_thunk<T>(
    the_box: &mut ComBox<T>,
    self_vtable: RawComPtr,
    offset: usize,
    riid: GUID,
    ts: TypeSystemName,
    out: &mut RawComPtr,
) -> (status: HRESULT)
    requires
        old(the_box).wf(),
        old(the_box).is_live(),
        old(the_box).is_table_pointer(self_vtable, offset as int),
        old(the_box).ref_count < u32::MAX,
    ensures
        final(the_box).wf(),
        final(the_box).is_live(),
        *final(out) == old(the_box).spec_query(riid, ts),
        status == old(the_box).spec_query_status(riid, ts),
        *final(the_box) == old(the_box).spec_after_query(riid, ts),
        spec_find(old(the_box).vtables.entries@, riid, ts) is Some ==> status == (
        HRESULT { hr: S_OK }) && final(the_box).ref_count == old(the_box).ref_count + 1
            && !final(out).is_null(),
        spec_find(old(the_box).vtables.entries@, riid, ts) is None ==> status == (
        HRESULT { hr: E_NOINTERFACE }) && final(the_box).ref_count == old(
            the_box,
        ).ref_count,
        final(the_box).value == old(the_box).value,
        final(the_box).base == old(the_box).base,
        final(the_box).vtables == old(the_box).vtables,
{
    let base = the_box.recover_from(self_vtable, offset);
    assert(base == the_box.base);
    the_box.query_interface(riid, ts, out)
}

/// The thunk that counts one more reference: gets the box back from the
/// pointer and counts. Returns the new count.
pub fn add_ref_thunk<T>(the_box: &mut ComBox<T>, self_vtable: RawComPtr, offset: usize) -> (count:
    u32)
    requires
        old(the_box).wf(),
        old(the_box).is_live(),
        old(the_box).is_table_pointer(self_vtable, offset as int),
        old(the_box).ref_count < u32::MAX,
    ensures
        final(the_box).wf(),
        final(the_box).is_live(),
        count == old(the_box).ref_count + 1,
        final(the_box).ref_count == count,
        final(the_box).value == old(the_box).value,
        final(the_box).base == old(the_box).base,
        final(the_box).vtables == old(the_box).vtables,
{
    let base = the_box.recover_from(self_vtable, offset);
    assert(base == the_box.base);
    the_box.add_ref()
}

/// The thunk that counts one reference less: gets the box back from the
/// pointer and counts. Returns the new count; where that is zero, the host
/// object has been destroyed.
pub fn release_thunk<T>(the_box: &mut ComBox<T>, self_vtable: RawComPtr, offset: usize) -> (count:
    u32)
    requires
        old(the_box).wf(),
        old(the_box).is_live(),
        old(the_box).is_table_pointer(self_vtable, offset as int),
    ensures
        final(the_box).wf(),
        count == old(the_box).ref_count - 1,
        final(the_box).ref_count == count,
        count > 0 ==> final(the_box).value == old(the_box).value,
        count == 0 ==> final(the_box).value is None,
        final(the_box).base == old(the_box).base,
        final(the_box).vtables == old(the_box).vtables,
{
    let base = the_box.recover_from(self_vtable, offset);
    assert(base == the_box.base);
    the_box.release()
}

/// The thunk of a method of the interface whose table pointer lies at
/// `offset`: gets the box back from the pointer, borrows the host object
/// and calls the method as `call_method` does. The count of references
/// stays as it is.
pub fn method_thunk<TS: TypeSystem, M: ComMethod<TS>>(
    the_box: &mut ComBox<M::Host>,
    self_vtable: RawComPtr,
    offset: usize,
    wire: <M::Input as ExternInput<TS>>::ForeignType,
    out: &mut <M::Output as ExternOutput<TS>>::ForeignType,
) -> (status: HRESULT) where <M::Output as ExternOutput<TS>>::ForeignType: ExternDefault
    requires
        old(the_box).wf(),
        old(the_box).is_live(),
        old(the_box).is_table_pointer(self_vtable, offset as int),
    ensures
        final(the_box).wf(),
        final(the_box).is_live(),
        final(the_box).ref_count == old(the_box).ref_count,
        final(the_box).base == old(the_box).base,
        final(the_box).vtables == old(the_box).vtables,
        match <M::Input as ExternInput<TS>>::spec_from_foreign_parameter(wire) {
            Err(e) => {
                &&& status == spec_failure_code(e)
                &&& !status.is_success()
                &&& *final(out) == <<M::Output as ExternOutput<
                    TS,
                >>::ForeignType as ExternDefault>::spec_extern_default()
                &&& final(the_box).value == old(the_box).value
            },
            Ok(_) => exists|result: ComResult<M::Output>|
                (status, *final(out)) == #[trigger] spec_return::<TS, M::Output>(result),
        },
{
    let base = the_box.recover_from(self_vtable, offset);
    assert(base == the_box.base);
    let host = the_box.value.as_mut().unwrap();
    call_method::<TS, M>(host, wire, out)
}

/// The thunk of a method that only reads the host object: gets the box back
/// from the pointer, borrows the host object and calls the method as
/// `call_const_method` does. The box stays as it is.
pub fn const_method_thunk<TS: TypeSystem, M: ConstComMethod<TS>>(
    the_box: &ComBox<M::Host>,
    self_vtable: RawComPtr,
    offset: usize,
    wire: <M::Input as ExternInput<TS>>::ForeignType,
    out: &mut <M::Output as ExternOutput<TS>>::ForeignType,
) -> (status: HRESULT) where <M::Output as ExternOutput<TS>>::ForeignType: ExternDefault
    requires
        the_box.wf(),
        the_box.is_live(),
        the_box.is_table_pointer(self_vtable, offset as int),
    ensures
        match <M::Input as ExternInput<TS>>::spec_from_foreign_parameter(wire) {
            Err(e) => {
                &&& status == spec_failure_code(e)
                &&& !status.is_success()
                &&& *final(out) == <<M::Output as ExternOutput<
                    TS,
                >>::ForeignType as ExternDefault>::spec_extern_default()
            },
            Ok(_) => exists|result: ComResult<M::Output>|
                (status, *final(out)) == #[trigger] spec_return::<TS, M::Output>(result),
        },
{
    let base = the_box.recover_from(self_vtable, offset);
    assert(base == the_box.base);
    let host = the_box.value.as_ref().unwrap();
    call_const_method::<TS, M>(host, wire, out)
}

} // verus!
