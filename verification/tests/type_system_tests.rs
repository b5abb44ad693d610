use intercom::raw::{ComError, ComResult, RawComPtr, GUID, HRESULT};
use intercom::type_system::{
    AutomationTypeSystem, CVoid, ExternDefault, Float32Bits, Float64Bits, ExternInput, ExternOutput, ForeignType,
    InfallibleExternInput, InfallibleExternOutput, InterfacePtr, Ptr, RawTypeSystem, TypeSystem,
    TypeSystemName,
};

#[test]
fn type_system_keys() {
    assert_eq!(AutomationTypeSystem::key(), TypeSystemName::Automation);
    assert_eq!(RawTypeSystem::key(), TypeSystemName::Raw);
    assert_ne!(AutomationTypeSystem::key(), RawTypeSystem::key());
}

#[test]
fn type_system_constants() {
    assert_eq!(<AutomationTypeSystem as TypeSystem>::AUTOMATION, TypeSystemName::Automation);
    assert_eq!(<AutomationTypeSystem as TypeSystem>::RAW, TypeSystemName::Raw);
    assert_eq!(<RawTypeSystem as TypeSystem>::AUTOMATION, TypeSystemName::Automation);
    assert_eq!(<RawTypeSystem as TypeSystem>::RAW, TypeSystemName::Raw);
}

#[test]
fn primitive_names() {
    assert_eq!(<() as ForeignType>::foreign_type_name(), "()");
    assert_eq!(<i8 as ForeignType>::foreign_type_name(), "i8");
    assert_eq!(<i16 as ForeignType>::foreign_type_name(), "i16");
    assert_eq!(<i32 as ForeignType>::foreign_type_name(), "i32");
    assert_eq!(<i64 as ForeignType>::foreign_type_name(), "i64");
    assert_eq!(<isize as ForeignType>::foreign_type_name(), "isize");
    assert_eq!(<u8 as ForeignType>::foreign_type_name(), "u8");
    assert_eq!(<u16 as ForeignType>::foreign_type_name(), "u16");
    assert_eq!(<u32 as ForeignType>::foreign_type_name(), "u32");
    assert_eq!(<u64 as ForeignType>::foreign_type_name(), "u64");
    assert_eq!(<usize as ForeignType>::foreign_type_name(), "usize");
    assert_eq!(<bool as ForeignType>::foreign_type_name(), "bool");
    assert_eq!(<HRESULT as ForeignType>::foreign_type_name(), "HRESULT");
    assert_eq!(<GUID as ForeignType>::foreign_type_name(), "GUID");
    assert_eq!(<TypeSystemName as ForeignType>::foreign_type_name(), "TypeSystemName");
}

#[test]
fn untyped_pointers_are_named_after_their_pointee() {
    assert_eq!(<CVoid as ForeignType>::foreign_type_name(), "c_void");
    assert_eq!(<CVoid as ForeignType>::indirection_level(), 0);
    assert_eq!(<RawComPtr as ForeignType>::foreign_type_name(), "c_void");
    assert_eq!(<RawComPtr as ForeignType>::indirection_level(), 1);
    assert_eq!(<Ptr<CVoid> as ForeignType>::foreign_type_name(), "c_void");
    assert_eq!(<Ptr<RawComPtr> as ForeignType>::indirection_level(), 2);
}

#[test]
fn untyped_pointer_round_trip() {
    let p = RawComPtr { addr: 0x7000 };
    let (wire, lease) = <RawComPtr as ExternInput<RawTypeSystem>>::into_foreign_parameter(p).unwrap();
    assert_eq!(wire, p);
    assert_eq!(lease, ());
    assert_eq!(<RawComPtr as ExternInput<RawTypeSystem>>::from_foreign_parameter(wire), Ok(p));
    let wire = <RawComPtr as ExternOutput<AutomationTypeSystem>>::into_foreign_output(p).unwrap();
    assert_eq!(<RawComPtr as ExternOutput<AutomationTypeSystem>>::from_foreign_output(wire), Ok(p));
    let (wire, _) = <RawComPtr as InfallibleExternInput<RawTypeSystem>>::into_foreign_parameter(p);
    assert_eq!(<RawComPtr as InfallibleExternInput<RawTypeSystem>>::from_foreign_parameter(wire), p);
    let wire = <RawComPtr as InfallibleExternOutput<RawTypeSystem>>::into_foreign_output(p);
    assert_eq!(<RawComPtr as InfallibleExternOutput<RawTypeSystem>>::from_foreign_output(wire), p);
}

#[test]
fn interface_pointers_default_to_null() {
    let p = <InterfacePtr<RawTypeSystem, u16> as ExternDefault>::extern_default();
    assert_eq!(p.ptr, RawComPtr { addr: 0 });
    assert!(p.ptr.is_null());
    let q = <InterfacePtr<AutomationTypeSystem, Ptr<u8>> as ExternDefault>::extern_default();
    assert!(q.ptr.is_null());
}

#[test]
fn primitives_have_no_indirection() {
    assert_eq!(<u32 as ForeignType>::indirection_level(), 0);
    assert_eq!(<() as ForeignType>::indirection_level(), 0);
    assert_eq!(<GUID as ForeignType>::indirection_level(), 0);
}

#[test]
fn pointers_are_named_after_their_pointee() {
    assert_eq!(<Ptr<u32> as ForeignType>::foreign_type_name(), "u32");
    assert_eq!(<Ptr<u32> as ForeignType>::indirection_level(), 1);
    assert_eq!(<Ptr<Ptr<GUID>> as ForeignType>::foreign_type_name(), "GUID");
    assert_eq!(<Ptr<Ptr<GUID>> as ForeignType>::indirection_level(), 2);
    assert_eq!(<Ptr<Ptr<Ptr<bool>>> as ForeignType>::indirection_level(), 3);
}

#[test]
fn interface_pointers_are_named_after_their_interface() {
    assert_eq!(
        <InterfacePtr<RawTypeSystem, u16> as ForeignType>::foreign_type_name(),
        "u16"
    );
    assert_eq!(<InterfacePtr<RawTypeSystem, u16> as ForeignType>::indirection_level(), 1);
    assert_eq!(
        <InterfacePtr<AutomationTypeSystem, Ptr<i8>> as ForeignType>::indirection_level(),
        2
    );
}

#[test]
fn fallible_input_round_trip() {
    let (wire, lease): (i32, ()) =
        <i32 as ExternInput<AutomationTypeSystem>>::into_foreign_parameter(-17).unwrap();
    assert_eq!(wire, -17);
    assert_eq!(lease, ());
    let host: ComResult<i32> = <i32 as ExternInput<AutomationTypeSystem>>::from_foreign_parameter(wire);
    assert_eq!(host, Ok(-17));
}

#[test]
fn fallible_output_round_trip() {
    let wire = <u64 as ExternOutput<RawTypeSystem>>::into_foreign_output(u64::MAX).unwrap();
    assert_eq!(wire, u64::MAX);
    assert_eq!(<u64 as ExternOutput<RawTypeSystem>>::from_foreign_output(wire), Ok(u64::MAX));
}

#[test]
fn infallible_round_trips() {
    let (wire, _) = <bool as InfallibleExternInput<RawTypeSystem>>::into_foreign_parameter(true);
    assert!(wire);
    assert!(<bool as InfallibleExternInput<RawTypeSystem>>::from_foreign_parameter(wire));
    let wire = <i8 as InfallibleExternOutput<AutomationTypeSystem>>::into_foreign_output(i8::MIN);
    assert_eq!(wire, i8::MIN);
    assert_eq!(
        <i8 as InfallibleExternOutput<AutomationTypeSystem>>::from_foreign_output(wire),
        i8::MIN
    );
}

#[test]
fn struct_primitives_round_trip() {
    let guid = GUID { data1: 0x12345678, data2: 0x9abc, data3: 0xdef0, data4: 0x0102030405060708 };
    let wire = <GUID as ExternOutput<RawTypeSystem>>::into_foreign_output(guid).unwrap();
    assert_eq!(wire, guid);
    let hr = HRESULT { hr: -5 };
    let (wire, _) = <HRESULT as ExternInput<RawTypeSystem>>::into_foreign_parameter(hr).unwrap();
    assert_eq!(<HRESULT as ExternInput<RawTypeSystem>>::from_foreign_parameter(wire), Ok(hr));
    let name = TypeSystemName::Raw;
    let wire = <TypeSystemName as InfallibleExternOutput<AutomationTypeSystem>>::into_foreign_output(name);
    assert_eq!(wire, TypeSystemName::Raw);
}

#[test]
fn both_type_systems_agree_on_primitives() {
    let a = <u16 as ExternOutput<AutomationTypeSystem>>::into_foreign_output(77);
    let r = <u16 as ExternOutput<RawTypeSystem>>::into_foreign_output(77);
    assert_eq!(a, r);
    assert_eq!(a, Ok::<u16, ComError>(77));
}

#[test]
fn pointer_round_trip() {
    let p: Ptr<u32> = Ptr::new(0x4000);
    let (wire, _) = <Ptr<u32> as ExternInput<RawTypeSystem>>::into_foreign_parameter(p).unwrap();
    assert_eq!(wire.addr, 0x4000);
    let host = <Ptr<u32> as ExternInput<RawTypeSystem>>::from_foreign_parameter(wire).ok().unwrap();
    assert_eq!(host.addr, 0x4000);
    let wire = <Ptr<u32> as InfallibleExternOutput<RawTypeSystem>>::into_foreign_output(host);
    let host = <Ptr<u32> as InfallibleExternOutput<RawTypeSystem>>::from_foreign_output(wire);
    assert_eq!(host.addr, 0x4000);
    let wire = <Ptr<u32> as ExternOutput<AutomationTypeSystem>>::into_foreign_output(host).ok().unwrap();
    let (wire, _) = <Ptr<u32> as InfallibleExternInput<AutomationTypeSystem>>::into_foreign_parameter(wire);
    assert_eq!(wire.addr, 0x4000);
}

#[test]
fn defaults_are_zero() {
    assert_eq!(<() as ExternDefault>::extern_default(), ());
    assert_eq!(<i8 as ExternDefault>::extern_default(), 0);
    assert_eq!(<i64 as ExternDefault>::extern_default(), 0);
    assert_eq!(<usize as ExternDefault>::extern_default(), 0);
    assert!(!<bool as ExternDefault>::extern_default());
    assert_eq!(<HRESULT as ExternDefault>::extern_default(), HRESULT { hr: 0 });
    assert_eq!(
        <GUID as ExternDefault>::extern_default(),
        GUID { data1: 0, data2: 0, data3: 0, data4: 0 }
    );
    assert_eq!(<TypeSystemName as ExternDefault>::extern_default(), TypeSystemName::Automation);
    assert_eq!(<RawComPtr as ExternDefault>::extern_default(), RawComPtr { addr: 0 });
    assert_eq!(<Ptr<u8> as ExternDefault>::extern_default().addr, 0);
}

#[test]
fn float_bits_keep_the_names_of_the_floats() {
    assert_eq!(<Float32Bits as ForeignType>::foreign_type_name(), "f32");
    assert_eq!(<Float64Bits as ForeignType>::foreign_type_name(), "f64");
    assert_eq!(<Float32Bits as ForeignType>::indirection_level(), 0);
    assert_eq!(<Float32Bits as ExternDefault>::extern_default(), Float32Bits { bits: 0 });
    assert_eq!(<Float64Bits as ExternDefault>::extern_default(), Float64Bits { bits: 0 });
    assert_eq!(f32::from_bits(<Float32Bits as ExternDefault>::extern_default().bits), 0.0);
    let wire = Float64Bits { bits: 1.5f64.to_bits() };
    let back = <Float64Bits as ExternOutput<RawTypeSystem>>::into_foreign_output(wire).unwrap();
    assert_eq!(f64::from_bits(back.bits), 1.5);
}
