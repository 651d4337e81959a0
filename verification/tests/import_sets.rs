use pyo3_stub_gen::annotation::{Arg, TypeInfo};
use pyo3_stub_gen::imports::ImportSet;
use pyo3_stub_gen::member::MemberDef;
use pyo3_stub_gen::method::MethodDef;
use pyo3_stub_gen::new::NewDef;

#[test]
fn insert_collapses_duplicates() {
    let mut s = ImportSet::new();
    s.insert(String::from("typing"));
    s.insert(String::from("typing"));
    s.insert(String::from("os"));
    assert_eq!(s.len(), 2);
    assert!(s.contains(&String::from("typing")));
    assert!(s.contains(&String::from("os")));
    assert!(!s.contains(&String::from("sys")));
}

#[test]
fn member_import_is_annotation_import() {
    let m = MemberDef {
        is_property: false,
        name: "path",
        ty: TypeInfo::qualified(String::from("pathlib.Path"), String::from("pathlib")),
        doc: "",
    };
    let imports = m.import();
    assert_eq!(imports.len(), 1);
    assert!(imports.contains(&String::from("pathlib")));
}

#[test]
fn method_import_unions_return_and_arguments() {
    let args = vec![
        Arg::plain(
            String::from("x"),
            TypeInfo::qualified(String::from("typing.Any"), String::from("typing")),
        ),
        Arg::plain(
            String::from("y"),
            TypeInfo::qualified(
                String::from("collections.OrderedDict"),
                String::from("collections"),
            ),
        ),
    ];
    let m = MethodDef {
        name: "mix",
        args,
        ret: TypeInfo::qualified(String::from("typing.Optional[int]"), String::from("typing")),
        doc: "",
        is_static: false,
        is_class: false,
    };
    let imports = m.import();
    assert_eq!(imports.len(), 2);
    assert!(imports.contains(&String::from("typing")));
    assert!(imports.contains(&String::from("collections")));
    assert!(!imports.contains(&String::from("pathlib")));
}

#[test]
fn constructor_import_unions_argument_imports() {
    let args = vec![
        Arg::plain(
            String::from("p"),
            TypeInfo::qualified(String::from("pathlib.Path"), String::from("pathlib")),
        ),
        Arg::plain(String::from("n"), TypeInfo::unqualified(String::from("int"))),
    ];
    let n = NewDef { args };
    let imports = n.import();
    assert_eq!(imports.len(), 1);
    assert!(imports.contains(&String::from("pathlib")));
}

#[test]
fn argument_import_is_its_annotation_import() {
    let a = Arg::plain(
        String::from("p"),
        TypeInfo::qualified(String::from("pathlib.Path"), String::from("pathlib")),
    );
    let imports = a.import();
    assert_eq!(imports.len(), 1);
    assert!(imports.contains(&String::from("pathlib")));
}

#[test]
fn argument_renders_name_type_and_default() {
    let plain = Arg::plain(String::from("x"), TypeInfo::unqualified(String::from("int")));
    assert_eq!(plain.render(), "x: int");
    let with_default = Arg::with_default(
        String::from("dy"),
        TypeInfo::unqualified(String::from("int")),
        String::from("0"),
    );
    assert_eq!(with_default.render(), "dy: int = 0");
}
