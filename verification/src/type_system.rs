//! Type systems and the marshaling contracts between host values and wire
//! values.

use vstd::prelude::*;
use crate::raw::{ComError, ComResult, HRESULT, GUID, RawComPtr};
use core::marker::PhantomData;

verus! {

/// Names the two marshaling strategies.
#[derive(Debug, Clone, Copy, Hash, PartialOrd, PartialEq, Eq, Structural)]
pub enum TypeSystemName {
    Automation,
    Raw,
}

/// Common trait for type systems.
pub trait TypeSystem: Clone + Copy {
    const AUTOMATION: TypeSystemName = TypeSystemName::Automation;
    const RAW: TypeSystemName = TypeSystemName::Raw;

    /// The name that `key` returns.
    spec fn spec_key() -> TypeSystemName;

    fn key() -> (k: TypeSystemName)
        ensures
            k == Self::spec_key(),
    ;
}

/// Automation type system.
#[derive(Clone, Copy)]
pub struct AutomationTypeSystem;

impl TypeSystem for AutomationTypeSystem {
    open spec fn spec_key() -> TypeSystemName {
        TypeSystemName::Automation
    }

    fn key() -> (k: TypeSystemName) {
        TypeSystemName::Automation
    }
}

/// Raw type system.
#[derive(Clone, Copy)]
pub struct RawTypeSystem;

impl TypeSystem for RawTypeSystem {
    open spec fn spec_key() -> TypeSystemName {
        TypeSystemName::Raw
    }

    fn key() -> (k: TypeSystemName) {
        TypeSystemName::Raw
    }
}

/// The level that one more pointer adds to: one above `inner`, held at the
/// largest `u32`.
pub open spec fn spec_next_level(inner: u32) -> u32 {
    if inner < u32::MAX {
        (inner + 1) as u32
    } else {
        u32::MAX
    }
}

/// Defines a type that has identical representation for both input and
/// output directions.
pub trait ForeignType {
    /// The name that `foreign_type_name` returns.
    spec fn spec_foreign_type_name() -> Seq<char>;

    /// The level that `indirection_level` returns.
    spec fn spec_indirection_level() -> u32;

    /// The name of the type.
    fn foreign_type_name() -> (name: &'static str)
        ensures
            name@ == Self::spec_foreign_type_name(),
    ;

    /// How many pointers stand between a value of the type and the named
    /// type.
    fn indirection_level() -> (level: u32)
        ensures
            level == Self::spec_indirection_level(),
    ;
}

/// Defines a type that may be used as a parameter type in interfaces.
///
/// Both directions are functions of the value alone: the wire value for a
/// host value, and the host value for a wire value, or the failure.
pub trait ExternInput<TS: TypeSystem>: Sized {
    type ForeignType: ForeignType;

    type Lease;

    type Owned;

    /// What `into_foreign_parameter` returns.
    spec fn spec_into_foreign_parameter(self) -> ComResult<(Self::ForeignType, Self::Lease)>;

    /// What `from_foreign_parameter` returns.
    spec fn spec_from_foreign_parameter(source: Self::ForeignType) -> ComResult<Self::Owned>;

    /// The wire value, good for as long as the lease is held.
    fn into_foreign_parameter(self) -> (r: ComResult<(Self::ForeignType, Self::Lease)>)
        ensures
            r == self.spec_into_foreign_parameter(),
    ;

    /// The host value that a wire value stands for.
    fn from_foreign_parameter(source: Self::ForeignType) -> (r: ComResult<Self::Owned>)
        ensures
            r == Self::spec_from_foreign_parameter(source),
    ;
}

/// Defines a type that may be used as an output type in interfaces.
pub trait ExternOutput<TS: TypeSystem>: Sized {
    type ForeignType: ForeignType;

    /// What `into_foreign_output` returns.
    spec fn spec_into_foreign_output(self) -> ComResult<Self::ForeignType>;

    /// What `from_foreign_output` returns.
    spec fn spec_from_foreign_output(source: Self::ForeignType) -> ComResult<Self>;

    fn into_foreign_output(self) -> (r: ComResult<Self::ForeignType>)
        ensures
            r == self.spec_into_foreign_output(),
    ;

    /// Takes the wire value over; the caller gives it up.
    fn from_foreign_output(source: Self::ForeignType) -> (r: ComResult<Self>)
        ensures
            r == Self::spec_from_foreign_output(source),
    ;
}

/// Defines a parameter type whose conversions cannot fail.
pub trait InfallibleExternInput<TS: TypeSystem>: Sized {
    type ForeignType: ForeignType;

    type Lease;

    type Owned;

    /// What `into_foreign_parameter` returns.
    spec fn spec_into_foreign_parameter(self) -> (Self::ForeignType, Self::Lease);

    /// What `from_foreign_parameter` returns.
    spec fn spec_from_foreign_parameter(source: Self::ForeignType) -> Self::Owned;

    /// The wire value, good for as long as the lease is held.
    fn into_foreign_parameter(self) -> (r: (Self::ForeignType, Self::Lease))
        ensures
            r == self.spec_into_foreign_parameter(),
    ;

    /// The host value that a wire value stands for.
    fn from_foreign_parameter(source: Self::ForeignType) -> (r: Self::Owned)
        ensures
            r == Self::spec_from_foreign_parameter(source),
    ;
}

/// Defines an output type whose conversions cannot fail.
pub trait InfallibleExternOutput<TS: TypeSystem>: Sized {
    type ForeignType: ForeignType;

    /// What `into_foreign_output` returns.
    spec fn spec_into_foreign_output(self) -> Self::ForeignType;

    /// What `from_foreign_output` returns.
    spec fn spec_from_foreign_output(source: Self::ForeignType) -> Self;

    fn into_foreign_output(self) -> (r: Self::ForeignType)
        ensures
            r == self.spec_into_foreign_output(),
    ;

    /// Takes the wire value over; the caller gives it up.
    fn from_foreign_output(source: Self::ForeignType) -> (r: Self)
        ensures
            r == Self::spec_from_foreign_output(source),
    ;
}

/// Defines the values that out parameters hold before a call fills them.
///
/// Only types for which the all-zero value is a value of the type have it.
pub trait ExternDefault: Sized {
    /// What `extern_default` returns.
    spec fn spec_extern_default() -> Self;

    fn extern_default() -> (value: Self)
        ensures
            value == Self::spec_extern_default(),
    ;
}

/// A type that stands for itself on the wire: the wire value is the host
/// value, and no lease holds anything.
pub trait SelfExtern: Sized {
    /// The name of the type, as it is written.
    spec fn spec_extern_name() -> Seq<char>;

    /// The all-zero value of the type.
    spec fn spec_extern_zero() -> Self;

    fn extern_name() -> (name: &'static str)
        ensures
            name@ == Self::spec_extern_name(),
    ;

    fn extern_zero() -> (zero: Self)
        ensures
            zero == Self::spec_extern_zero(),
    ;
}

impl<T: SelfExtern> ForeignType for T {
    open spec fn spec_foreign_type_name() -> Seq<char> {
        T::spec_extern_name()
    }

    open spec fn spec_indirection_level() -> u32 {
        0
    }

    /// The default name is the name of the type.
    fn foreign_type_name() -> (name: &'static str) {
        T::extern_name()
    }

    fn indirection_level() -> (level: u32) {
        0
    }
}

impl<TS: TypeSystem, T: SelfExtern> ExternInput<TS> for T {
    type ForeignType = T;

    type Lease = ();

    type Owned = T;

    open spec fn spec_into_foreign_parameter(self) -> ComResult<(T, ())> {
        Ok((self, ()))
    }

    open spec fn spec_from_foreign_parameter(source: T) -> ComResult<T> {
        Ok(source)
    }

    fn into_foreign_parameter(self) -> (r: ComResult<(T, ())>) {
        Ok((self, ()))
    }

    fn from_foreign_parameter(source: T) -> (r: ComResult<T>) {
        Ok(source)
    }
}

impl<TS: TypeSystem, T: SelfExtern> ExternOutput<TS> for T {
    type ForeignType = T;

    open spec fn spec_into_foreign_output(self) -> ComResult<T> {
        Ok(self)
    }

    open spec fn spec_from_foreign_output(source: T) -> ComResult<T> {
        Ok(source)
    }

    fn into_foreign_output(self) -> (r: ComResult<T>) {
        Ok(self)
    }

    fn from_foreign_output(source: T) -> (r: ComResult<T>) {
        Ok(source)
    }
}

impl<TS: TypeSystem, T: SelfExtern> InfallibleExternInput<TS> for T {
    type ForeignType = T;

    type Lease = ();

    type Owned = T;

    open spec fn spec_into_foreign_parameter(self) -> (T, ()) {
        (self, ())
    }

    open spec fn spec_from_foreign_parameter(source: T) -> T {
        source
    }

    fn into_foreign_parameter(self) -> (r: (T, ())) {
        (self, ())
    }

    fn from_foreign_parameter(source: T) -> (r: T) {
        source
    }
}

impl<TS: TypeSystem, T: SelfExtern> InfallibleExternOutput<TS> for T {
    type ForeignType = T;

    open spec fn spec_into_foreign_output(self) -> T {
        self
    }

    open spec fn spec_from_foreign_output(source: T) -> T {
        source
    }

    fn into_foreign_output(self) -> (r: T) {
        self
    }

    fn from_foreign_output(source: T) -> (r: T) {
        source
    }
}

impl<T: SelfExtern> ExternDefault for T {
    open spec fn spec_extern_default() -> T {
        T::spec_extern_zero()
    }

    fn extern_default() -> (value: T) {
        T::extern_zero()
    }
}

// The types that stand for themselves.

impl SelfExtern for () {
    open spec fn spec_extern_name() -> Seq<char> {
        "()"@
    }

    open spec fn spec_extern_zero() -> () {
        ()
    }

    fn extern_name() -> (name: &'static str) {
        "()"
    }

    fn extern_zero() -> (zero: ()) {
        ()
    }
}

impl SelfExtern for i8 {
    open spec fn spec_extern_name() -> Seq<char> {
        "i8"@
    }

    open spec fn spec_extern_zero() -> i8 {
        0
    }

    fn extern_name() -> (name: &'static str) {
        "i8"
    }

    fn extern_zero() -> (zero: i8) {
        0
    }
}

impl SelfExtern for i16 {
    open spec fn spec_extern_name() -> Seq<char> {
        "i16"@
    }

    open spec fn spec_extern_zero() -> i16 {
        0
    }

    fn extern_name() -> (name: &'static str) {
        "i16"
    }

    fn extern_zero() -> (zero: i16) {
        0
    }
}

impl SelfExtern for i32 {
    open spec fn spec_extern_name() -> Seq<char> {
        "i32"@
    }

    open spec fn spec_extern_zero() -> i32 {
        0
    }

    fn extern_name() -> (name: &'static str) {
        "i32"
    }

    fn extern_zero() -> (zero: i32) {
        0
    }
}

impl SelfExtern for i64 {
    open spec fn spec_extern_name() -> Seq<char> {
        "i64"@
    }

    open spec fn spec_extern_zero() -> i64 {
        0
    }

    fn extern_name() -> (name: &'static str) {
        "i64"
    }

    fn extern_zero() -> (zero: i64) {
        0
    }
}

impl SelfExtern for isize {
    open spec fn spec_extern_name() -> Seq<char> {
        "isize"@
    }

    open spec fn spec_extern_zero() -> isize {
        0
    }

    fn extern_name() -> (name: &'static str) {
        "isize"
    }

    fn extern_zero() -> (zero: isize) {
        0
    }
}

impl SelfExtern for u8 {
    open spec fn spec_extern_name() -> Seq<char> {
        "u8"@
    }

    open spec fn spec_extern_zero() -> u8 {
        0
    }

    fn extern_name() -> (name: &'static str) {
        "u8"
    }

    fn extern_zero() -> (zero: u8) {
        0
    }
}

impl SelfExtern for u16 {
    open spec fn spec_extern_name() -> Seq<char> {
        "u16"@
    }

    open spec fn spec_extern_zero() -> u16 {
        0
    }

    fn extern_name() -> (name: &'static str) {
        "u16"
    }

    fn extern_zero() -> (zero: u16) {
        0
    }
}

impl SelfExtern for u32 {
    open spec fn spec_extern_name() -> Seq<char> {
        "u32"@
    }

    open spec fn spec_extern_zero() -> u32 {
        0
    }

    fn extern_name() -> (name: &'static str) {
        "u32"
    }

    fn extern_zero() -> (zero: u32) {
        0
    }
}

impl SelfExtern for u64 {
    open spec fn spec_extern_name() -> Seq<char> {
        "u64"@
    }

    open spec fn spec_extern_zero() -> u64 {
        0
    }

    fn extern_name() -> (name: &'static str) {
        "u64"
    }

    fn extern_zero() -> (zero: u64) {
        0
    }
}

impl SelfExtern for usize {
    open spec fn spec_extern_name() -> Seq<char> {
        "usize"@
    }

    open spec fn spec_extern_zero() -> usize {
        0
    }

    fn extern_name() -> (name: &'static str) {
        "usize"
    }

    fn extern_zero() -> (zero: usize) {
        0
    }
}

impl SelfExtern for bool {
    open spec fn spec_extern_name() -> Seq<char> {
        "bool"@
    }

    open spec fn spec_extern_zero() -> bool {
        false
    }

    fn extern_name() -> (name: &'static str) {
        "bool"
    }

    fn extern_zero() -> (zero: bool) {
        false
    }
}

impl SelfExtern for HRESULT {
    open spec fn spec_extern_name() -> Seq<char> {
        "HRESULT"@
    }

    open spec fn spec_extern_zero() -> HRESULT {
        HRESULT { hr: 0 }
    }

    fn extern_name() -> (name: &'static str) {
        "HRESULT"
    }

    fn extern_zero() -> (zero: HRESULT) {
        HRESULT { hr: 0 }
    }
}

impl SelfExtern for GUID {
    open spec fn spec_extern_name() -> Seq<char> {
        "GUID"@
    }

    open spec fn spec_extern_zero() -> GUID {
        GUID { data1: 0, data2: 0, data3: 0, data4: 0 }
    }

    fn extern_name() -> (name: &'static str) {
        "GUID"
    }

    fn extern_zero() -> (zero: GUID) {
        GUID { data1: 0, data2: 0, data3: 0, data4: 0 }
    }
}

impl SelfExtern for TypeSystemName {
    open spec fn spec_extern_name() -> Seq<char> {
        "TypeSystemName"@
    }

    open spec fn spec_extern_zero() -> TypeSystemName {
        TypeSystemName::Automation
    }

    fn extern_name() -> (name: &'static str) {
        "TypeSystemName"
    }

    fn extern_zero() -> (zero: TypeSystemName) {
        TypeSystemName::Automation
    }
}

/// A 32-bit float as it crosses the boundary: its four bytes, held as bits.
#[derive(Debug, Clone, Copy, PartialEq, Eq, Structural, Hash)]
pub struct Float32Bits {
    pub bits: u32,
}

/// A 64-bit float as it crosses the boundary: its eight bytes, held as bits.
#[derive(Debug, Clone, Copy, PartialEq, Eq, Structural, Hash)]
pub struct Float64Bits {
    pub bits: u64,
}

impl SelfExtern for Float32Bits {
    open spec fn spec_extern_name() -> Seq<char> {
        "f32"@
    }

    open spec fn spec_extern_zero() -> Float32Bits {
        Float32Bits { bits: 0 }
    }

    fn extern_name() -> (name: &'static str) {
        "f32"
    }

    /// The bits of positive zero.
    fn extern_zero() -> (zero: Float32Bits) {
        Float32Bits { bits: 0 }
    }
}

impl SelfExtern for Float64Bits {
    open spec fn spec_extern_name() -> Seq<char> {
        "f64"@
    }

    open spec fn spec_extern_zero() -> Float64Bits {
        Float64Bits { bits: 0 }
    }

    fn extern_name() -> (name: &'static str) {
        "f64"
    }

    /// The bits of positive zero.
    fn extern_zero() -> (zero: Float64Bits) {
        Float64Bits { bits: 0 }
    }
}

/// The address of a value of type `T`, passed by value. Zero is null.
pub struct Ptr<T> {
    pub addr: usize,
    pub pointee: PhantomData<T>,
}

impl<T> Ptr<T> {
    /// The pointer to the given address.
    pub fn new(addr: usize) -> (p: Ptr<T>)
        ensures
            p.addr == addr,
    {
        Ptr { addr, pointee: PhantomData }
    }
}

impl<T: ForeignType> ForeignType for Ptr<T> {
    open spec fn spec_foreign_type_name() -> Seq<char> {
        T::spec_foreign_type_name()
    }

    open spec fn spec_indirection_level() -> u32 {
        spec_next_level(T::spec_indirection_level())
    }

    /// A pointer is named after what it points to.
    fn foreign_type_name() -> (name: &'static str) {
        T::foreign_type_name()
    }

    fn indirection_level() -> (level: u32) {
        let inner: u32 = T::indirection_level();
        if inner < u32::MAX {
            inner + 1
        } else {
            inner
        }
    }
}

impl<TS: TypeSystem, T: ForeignType> ExternOutput<TS> for Ptr<T> {
    type ForeignType = Ptr<T>;

    open spec fn spec_into_foreign_output(self) -> ComResult<Ptr<T>> {
        Ok(self)
    }

    open spec fn spec_from_foreign_output(source: Ptr<T>) -> ComResult<Ptr<T>> {
        Ok(source)
    }

    fn into_foreign_output(self) -> (r: ComResult<Ptr<T>>) {
        Ok(self)
    }

    fn from_foreign_output(source: Ptr<T>) -> (r: ComResult<Ptr<T>>) {
        Ok(source)
    }
}

impl<TS: TypeSystem, T: ForeignType> ExternInput<TS> for Ptr<T> {
    type ForeignType = Ptr<T>;

    type Lease = ();

    type Owned = Ptr<T>;

    open spec fn spec_into_foreign_parameter(self) -> ComResult<(Ptr<T>, ())> {
        Ok((self, ()))
    }

    open spec fn spec_from_foreign_parameter(source: Ptr<T>) -> ComResult<Ptr<T>> {
        Ok(source)
    }

    fn into_foreign_parameter(self) -> (r: ComResult<(Ptr<T>, ())>) {
        Ok((self, ()))
    }

    fn from_foreign_parameter(source: Ptr<T>) -> (r: ComResult<Ptr<T>>) {
        Ok(source)
    }
}

impl<TS: TypeSystem, T: ForeignType> InfallibleExternOutput<TS> for Ptr<T> {
    type ForeignType = Ptr<T>;

    open spec fn spec_into_foreign_output(self) -> Ptr<T> {
        self
    }

    open spec fn spec_from_foreign_output(source: Ptr<T>) -> Ptr<T> {
        source
    }

    fn into_foreign_output(self) -> (r: Ptr<T>) {
        self
    }

    fn from_foreign_output(source: Ptr<T>) -> (r: Ptr<T>) {
        source
    }
}

impl<TS: TypeSystem, T: ForeignType> InfallibleExternInput<TS> for Ptr<T> {
    type ForeignType = Ptr<T>;

    type Lease = ();

    type Owned = Ptr<T>;

    open spec fn spec_into_foreign_parameter(self) -> (Ptr<T>, ()) {
        (self, ())
    }

    open spec fn spec_from_foreign_parameter(source: Ptr<T>) -> Ptr<T> {
        source
    }

    fn into_foreign_parameter(self) -> (r: (Ptr<T>, ())) {
        (self, ())
    }

    fn from_foreign_parameter(source: Ptr<T>) -> (r: Ptr<T>) {
        source
    }
}

impl<T> ExternDefault for Ptr<T> {
    open spec fn spec_extern_default() -> Ptr<T> {
        Ptr { addr: 0, pointee: PhantomData }
    }

    /// The null pointer.
    fn extern_default() -> (value: Ptr<T>) {
        Ptr { addr: 0, pointee: PhantomData }
    }
}

/// What an untyped pointer points to. There are no values of this type.
pub struct CVoid {
    nothing: (),
}

impl ForeignType for CVoid {
    open spec fn spec_foreign_type_name() -> Seq<char> {
        "c_void"@
    }

    open spec fn spec_indirection_level() -> u32 {
        0
    }

    fn foreign_type_name() -> (name: &'static str) {
        "c_void"
    }

    fn indirection_level() -> (level: u32) {
        0
    }
}

impl ForeignType for RawComPtr {
    open spec fn spec_foreign_type_name() -> Seq<char> {
        CVoid::spec_foreign_type_name()
    }

    open spec fn spec_indirection_level() -> u32 {
        spec_next_level(CVoid::spec_indirection_level())
    }

    /// An untyped pointer is named after what it points to.
    fn foreign_type_name() -> (name: &'static str) {
        CVoid::foreign_type_name()
    }

    fn indirection_level() -> (level: u32) {
        let inner: u32 = CVoid::indirection_level();
        if inner < u32::MAX {
            inner + 1
        } else {
            inner
        }
    }
}

impl<TS: TypeSystem> ExternOutput<TS> for RawComPtr {
    type ForeignType = RawComPtr;

    open spec fn spec_into_foreign_output(self) -> ComResult<RawComPtr> {
        Ok(self)
    }

    open spec fn spec_from_foreign_output(source: RawComPtr) -> ComResult<RawComPtr> {
        Ok(source)
    }

    fn into_foreign_output(self) -> (r: ComResult<RawComPtr>) {
        Ok(self)
    }

    fn from_foreign_output(source: RawComPtr) -> (r: ComResult<RawComPtr>) {
        Ok(source)
    }
}

impl<TS: TypeSystem> ExternInput<TS> for RawComPtr {
    type ForeignType = RawComPtr;

    type Lease = ();

    type Owned = RawComPtr;

    open spec fn spec_into_foreign_parameter(self) -> ComResult<(RawComPtr, ())> {
        Ok((self, ()))
    }

    open spec fn spec_from_foreign_parameter(source: RawComPtr) -> ComResult<RawComPtr> {
        Ok(source)
    }

    fn into_foreign_parameter(self) -> (r: ComResult<(RawComPtr, ())>) {
        Ok((self, ()))
    }

    fn from_foreign_parameter(source: RawComPtr) -> (r: ComResult<RawComPtr>) {
        Ok(source)
    }
}

impl<TS: TypeSystem> InfallibleExternOutput<TS> for RawComPtr {
    type ForeignType = RawComPtr;

    open spec fn spec_into_foreign_output(self) -> RawComPtr {
        self
    }

    open spec fn spec_from_foreign_output(source: RawComPtr) -> RawComPtr {
        source
    }

    fn into_foreign_output(self) -> (r: RawComPtr) {
        self
    }

    fn from_foreign_output(source: RawComPtr) -> (r: RawComPtr) {
        source
    }
}

impl<TS: TypeSystem> InfallibleExternInput<TS> for RawComPtr {
    type ForeignType = RawComPtr;

    type Lease = ();

    type Owned = RawComPtr;

    open spec fn spec_into_foreign_parameter(self) -> (RawComPtr, ()) {
        (self, ())
    }

    open spec fn spec_from_foreign_parameter(source: RawComPtr) -> RawComPtr {
        source
    }

    fn into_foreign_parameter(self) -> (r: (RawComPtr, ())) {
        (self, ())
    }

    fn from_foreign_parameter(source: RawComPtr) -> (r: RawComPtr) {
        source
    }
}

impl ExternDefault for RawComPtr {
    open spec fn spec_extern_default() -> RawComPtr {
        RawComPtr { addr: 0 }
    }

    /// The null pointer.
    fn extern_default() -> (value: RawComPtr) {
        RawComPtr { addr: 0 }
    }
}

/// A pointer to the function table of interface `I` under type system `TS`.
pub struct InterfacePtr<TS: TypeSystem, I> {
    pub ptr: RawComPtr,
    pub phantom: PhantomData<(TS, I)>,
}

impl<TS: TypeSystem, I: ForeignType> ForeignType for InterfacePtr<TS, I> {
    open spec fn spec_foreign_type_name() -> Seq<char> {
        I::spec_foreign_type_name()
    }

    open spec fn spec_indirection_level() -> u32 {
        spec_next_level(I::spec_indirection_level())
    }

    /// The name of the type.
    fn foreign_type_name() -> (name: &'static str) {
        I::foreign_type_name()
    }

    fn indirection_level() -> (level: u32) {
        let inner: u32 = I::indirection_level();
        if inner < u32::MAX {
            inner + 1
        } else {
            inner
        }
    }
}

impl<TS: TypeSystem, I> ExternDefault for InterfacePtr<TS, I> {
    open spec fn spec_extern_default() -> InterfacePtr<TS, I> {
        InterfacePtr { ptr: RawComPtr { addr: 0 }, phantom: PhantomData }
    }

    /// The null pointer.
    fn extern_default() -> (value: InterfacePtr<TS, I>) {
        InterfacePtr { ptr: RawComPtr { addr: 0 }, phantom: PhantomData }
    }
}

/// A value of a type that stands for itself is its own wire value and comes
/// back from the wire unchanged, as a parameter and as an output, in the
/// fallible contracts and in the infallible ones, under every type system.
pub proof fn lemma_self_extern_round_trip<TS: TypeSystem, T: SelfExtern>(x: T)
    ensures
        <T as ExternInput<TS>>::spec_into_foreign_parameter(x) matches Ok(wire)
            && wire.0 == x
            && <T as ExternInput<TS>>::spec_from_foreign_parameter(wire.0) == Ok::<T, ComError>(x),
        <T as ExternOutput<TS>>::spec_into_foreign_output(x) matches Ok(wire)
            && wire == x
            && <T as ExternOutput<TS>>::spec_from_foreign_output(wire) == Ok::<T, ComError>(x),
        <T as InfallibleExternInput<TS>>::spec_from_foreign_parameter(
            <T as InfallibleExternInput<TS>>::spec_into_foreign_parameter(x).0,
        ) == x,
        <T as InfallibleExternOutput<TS>>::spec_from_foreign_output(
            <T as InfallibleExternOutput<TS>>::spec_into_foreign_output(x),
        ) == x,
{
}

/// A pointer is its own wire value and comes back from the wire unchanged,
/// as a parameter and as an output, in the fallible contracts and in the
/// infallible ones, under every type system.
pub proof fn lemma_pointer_round_trip<TS: TypeSystem, T: ForeignType>(p: Ptr<T>)
    ensures
        <Ptr<T> as ExternInput<TS>>::spec_into_foreign_parameter(p) matches Ok(wire)
            && wire.0 == p
            && <Ptr<T> as ExternInput<TS>>::spec_from_foreign_parameter(wire.0) == Ok::<
            Ptr<T>,
            ComError,
        >(p),
        <Ptr<T> as ExternOutput<TS>>::spec_into_foreign_output(p) matches Ok(wire)
            && wire == p
            && <Ptr<T> as ExternOutput<TS>>::spec_from_foreign_output(wire) == Ok::<
            Ptr<T>,
            ComError,
        >(p),
        <Ptr<T> as InfallibleExternInput<TS>>::spec_from_foreign_parameter(
            <Ptr<T> as InfallibleExternInput<TS>>::spec_into_foreign_parameter(p).0,
        ) == p,
        <Ptr<T> as InfallibleExternOutput<TS>>::spec_from_foreign_output(
            <Ptr<T> as InfallibleExternOutput<TS>>::spec_into_foreign_output(p),
        ) == p,
{
}

/// An untyped pointer is its own wire value and comes back from the wire
/// unchanged, as a parameter and as an output, in the fallible contracts and
/// in the infallible ones, under every type system.
pub proof fn lemma_com_pointer_round_trip<TS: TypeSystem>(p: RawComPtr)
    ensures
        <RawComPtr as ExternInput<TS>>::spec_into_foreign_parameter(p) matches Ok(wire)
            && wire.0 == p
            && <RawComPtr as ExternInput<TS>>::spec_from_foreign_parameter(wire.0) == Ok::<
            RawComPtr,
            ComError,
        >(p),
        <RawComPtr as ExternOutput<TS>>::spec_into_foreign_output(p) matches Ok(wire)
            && wire == p
            && <RawComPtr as ExternOutput<TS>>::spec_from_foreign_output(wire) == Ok::<
            RawComPtr,
            ComError,
        >(p),
        <RawComPtr as InfallibleExternInput<TS>>::spec_from_foreign_parameter(
            <RawComPtr as InfallibleExternInput<TS>>::spec_into_foreign_parameter(p).0,
        ) == p,
        <RawComPtr as InfallibleExternOutput<TS>>::spec_from_foreign_output(
            <RawComPtr as InfallibleExternOutput<TS>>::spec_into_foreign_output(p),
        ) == p,
{
}

/// The marshaling of a type that stands for itself does not depend on the
/// type system: both strategies give the same wire value.
pub proof fn lemma_self_extern_same_under_both<T: SelfExtern>(x: T)
    ensures
        <T as ExternInput<AutomationTypeSystem>>::spec_into_foreign_parameter(x) == <T as ExternInput<
            RawTypeSystem,
        >>::spec_into_foreign_parameter(x),
        <T as ExternOutput<AutomationTypeSystem>>::spec_into_foreign_output(x) == <T as ExternOutput<
            RawTypeSystem,
        >>::spec_into_foreign_output(x),
{
}

} // verus!
