use gms_binder::descriptor::{output_path, CLOSING, FILE_SETTINGS, STATIC_METADATA};
use gms_binder::session::{Binder, Registry};
use gms_binder::signature::{BindedFunction, TypeSyntax};
use gms_binder::text::push_decimal;

fn decimal(n: usize) -> String {
    let mut s = String::from("#");
    push_decimal(&mut s, n);
    s
}

#[test]
fn decimal_digits() {
    assert_eq!(decimal(0), "#0");
    assert_eq!(decimal(7), "#7");
    assert_eq!(decimal(10), "#10");
    assert_eq!(decimal(12345), "#12345");
    assert_eq!(decimal(usize::MAX), format!("#{}", usize::MAX));
}

#[test]
fn internal_and_external_names() {
    let f = BindedFunction::record("get_node_y", &vec![TypeSyntax::Other], None);
    let xml = f.generate_function_xml("ext");
    assert!(xml.contains("<name>ext_get_node_y</name>"));
    assert!(xml.contains("<externalName>get_node_y</externalName>"));
}

#[test]
fn function_entry_text() {
    let f = BindedFunction::record("node_y", &vec![TypeSyntax::Reference], Some(TypeSyntax::Other));
    assert_eq!(
        f.generate_function_xml("rope"),
        "<function>\n<name>rope_node_y</name>\n<externalName>node_y</externalName>\n\
         <kind>11</kind>\n<help></help>\n<returnType>2</returnType>\n<argCount>1</argCount>\n\
         <args><arg>1</arg></args>\n</function>"
    );
}

#[test]
fn arg_count_and_codes_follow_the_parameters() {
    let params = vec![
        TypeSyntax::Other,
        TypeSyntax::Pointer,
        TypeSyntax::Other,
        TypeSyntax::Reference,
        TypeSyntax::Other,
        TypeSyntax::Other,
        TypeSyntax::Other,
        TypeSyntax::Other,
        TypeSyntax::Other,
        TypeSyntax::Other,
        TypeSyntax::Reference,
    ];
    let f = BindedFunction::record("many", &params, Some(TypeSyntax::Pointer));
    let xml = f.generate_function_xml("p");
    assert!(xml.contains("<returnType>1</returnType>\n<argCount>11</argCount>\n"));
    assert!(xml.contains(
        "<args><arg>2</arg><arg>1</arg><arg>2</arg><arg>1</arg><arg>2</arg><arg>2</arg>\
         <arg>2</arg><arg>2</arg><arg>2</arg><arg>2</arg><arg>1</arg></args>"
    ));
}

#[test]
fn no_arguments_gives_empty_list() {
    let f = BindedFunction::record("tick", &vec![], None);
    let xml = f.generate_function_xml("t");
    assert!(xml.contains("<argCount>0</argCount>\n<args></args>\n</function>"));
}

#[test]
fn empty_session_descriptor() {
    let b = Binder::new("Rope", "rope.dll", "rope");
    let expected = format!(
        "<extension> <name>Rope</name> \n {}<files> \n<file> \n<filename>rope.dll</filename> \n\
         <origname>extensions\\rope.dll{}{}",
        STATIC_METADATA, FILE_SETTINGS, CLOSING
    );
    assert_eq!(b.generate_xml(), expected);
    assert!(STATIC_METADATA.starts_with("<version>1.0.0</version> \n<packageID></packageID> \n"));
    assert!(STATIC_METADATA.contains("<CopyToMask>105553895358702</CopyToMask> \n"));
    assert!(STATIC_METADATA.ends_with("<IncludedResources/> \n"));
    assert!(FILE_SETTINGS.contains("<kind>1</kind> \n<uncompress>0</uncompress> \n"));
    assert!(FILE_SETTINGS.contains("<CopyToMask>9223372036854775807</CopyToMask> \n"));
}

#[test]
fn end_to_end_rope() {
    let mut r = Registry::new();
    r.start("Rope", "rope.dll", "rope");
    let f = BindedFunction::record("node_y", &vec![TypeSyntax::Reference], Some(TypeSyntax::Other));
    assert_eq!(r.append(f), Ok(()));
    let b = r.end().unwrap();
    let xml = b.generate_xml();
    assert_eq!(xml.matches("<function>").count(), 1);
    assert!(xml.contains(
        "<functions> \n<function>\n<name>rope_node_y</name>\n<externalName>node_y</externalName>\n\
         <kind>11</kind>\n<help></help>\n<returnType>2</returnType>\n<argCount>1</argCount>\n\
         <args><arg>1</arg></args>\n</function> \n</functions> \n"
    ));
    assert!(xml.starts_with("<extension> <name>Rope</name> \n <version>1.0.0</version>"));
    assert!(xml.contains("<filename>rope.dll</filename> \n<origname>extensions\\rope.dll</origname>"));
}

#[test]
fn descriptor_lists_functions_in_call_order() {
    let mut r = Registry::new();
    r.start("Lib", "lib.dll", "x");
    for name in ["first", "second", "third"] {
        assert_eq!(r.append(BindedFunction::record(name, &vec![], None)), Ok(()));
    }
    let xml = r.end().unwrap().generate_xml();
    assert_eq!(xml.matches("<function>").count(), 3);
    let a = xml.find("<name>x_first</name>").unwrap();
    let b = xml.find("<name>x_second</name>").unwrap();
    let c = xml.find("<name>x_third</name>").unwrap();
    assert!(a < b && b < c);
}

#[test]
fn building_twice_gives_the_same_text() {
    let mut b = Binder::new("Lib", "lib.dll", "x");
    b.functions.push(BindedFunction::record("f", &vec![TypeSyntax::Reference], None));
    assert_eq!(b.generate_xml(), b.generate_xml());
}

#[test]
fn output_path_appends_extension() {
    assert_eq!(output_path("out/", "Rope"), "out/Rope.xml");
}
