use pyo3_stub_gen::annotation::{Arg, TypeInfo};
use pyo3_stub_gen::member::{MemberDef, MemberInfo};
use pyo3_stub_gen::method::{MethodDef, MethodInfo};
use pyo3_stub_gen::new::{NewDef, NewInfo};

fn int_ty() -> TypeInfo {
    TypeInfo::unqualified(String::from("int"))
}

fn float_ty() -> TypeInfo {
    TypeInfo::unqualified(String::from("float"))
}

#[test]
fn plain_member_renders_attribute_line() {
    let m = MemberDef { is_property: false, name: "x", ty: int_ty(), doc: "" };
    assert_eq!(m.render(1), "    x: int\n");
    assert_eq!(m.render(0), "x: int\n");
}

#[test]
fn plain_member_with_doc_attaches_block() {
    let m = MemberDef { is_property: false, name: "x", ty: int_ty(), doc: "the x coordinate" };
    assert_eq!(m.render(1), "    x: int\n        \"\"\"the x coordinate\"\"\"\n");
}

#[test]
fn plain_member_multiline_doc_indents_following_lines() {
    let m = MemberDef { is_property: false, name: "x", ty: int_ty(), doc: "a\nb" };
    assert_eq!(m.render(0), "x: int\n    \"\"\"a\n    b\"\"\"\n");
}

#[test]
fn property_with_doc_renders_accessor_block() {
    let m = MemberDef { is_property: true, name: "x", ty: float_ty(), doc: "the x coordinate" };
    let expected = "    @property\n    def x(self) -> float:\n        \"\"\"the x coordinate\"\"\"\n        ...\n";
    assert_eq!(m.render(1), expected);
}

#[test]
fn property_without_doc_keeps_placeholder() {
    let m = MemberDef { is_property: true, name: "x", ty: float_ty(), doc: "" };
    let expected = "    @property\n    def x(self) -> float:\n        ...\n";
    assert_eq!(m.render(1), expected);
}

#[test]
fn zero_arg_instance_method_is_single_line() {
    let m = MethodDef {
        name: "area",
        args: Vec::new(),
        ret: float_ty(),
        doc: "",
        is_static: false,
        is_class: false,
    };
    assert_eq!(m.render(1), "    def area(self) -> float: ...\n");
}

#[test]
fn static_method_has_marker_and_no_receiver() {
    let m = MethodDef {
        name: "origin",
        args: Vec::new(),
        ret: TypeInfo::unqualified(String::from("Point")),
        doc: "",
        is_static: true,
        is_class: false,
    };
    assert_eq!(m.render(1), "    @staticmethod\n    def origin() -> Point: ...\n");
}

#[test]
fn static_method_args_have_no_leading_separator() {
    let args = vec![
        Arg::plain(String::from("x"), int_ty()),
        Arg::plain(String::from("y"), int_ty()),
    ];
    let m = MethodDef {
        name: "of",
        args,
        ret: TypeInfo::unqualified(String::from("Point")),
        doc: "",
        is_static: true,
        is_class: false,
    };
    assert_eq!(m.render(0), "@staticmethod\ndef of(x: int, y: int) -> Point: ...\n");
}

#[test]
fn class_method_binds_cls_first() {
    let args = vec![Arg::plain(String::from("x"), int_ty())];
    let m = MethodDef {
        name: "create",
        args,
        ret: TypeInfo::unqualified(String::from("Point")),
        doc: "",
        is_static: false,
        is_class: true,
    };
    assert_eq!(m.render(1), "    @classmethod\n    def create(cls, x: int) -> Point: ...\n");
}

#[test]
fn instance_method_separates_every_argument() {
    let args = vec![
        Arg::plain(String::from("dx"), int_ty()),
        Arg::with_default(String::from("dy"), int_ty(), String::from("0")),
    ];
    let m = MethodDef {
        name: "translate",
        args,
        ret: TypeInfo::unqualified(String::from("None")),
        doc: "",
        is_static: false,
        is_class: false,
    };
    assert_eq!(m.render(0), "def translate(self, dx: int, dy: int = 0) -> None: ...\n");
}

#[test]
fn method_doc_becomes_raw_block_body() {
    let args = vec![Arg::plain(String::from("y"), int_ty())];
    let m = MethodDef {
        name: "add",
        args,
        ret: int_ty(),
        doc: "Adds.\nReturns sum.",
        is_static: false,
        is_class: false,
    };
    let expected = "def add(self, y: int) -> int:\n    r\"\"\"\n    Adds.\n    Returns sum.\n    \"\"\"\n";
    assert_eq!(m.render(0), expected);
}

#[test]
fn constructor_two_args_is_single_line() {
    let args = vec![
        Arg::plain(String::from("x"), float_ty()),
        Arg::plain(String::from("y"), float_ty()),
    ];
    let n = NewDef { args };
    assert_eq!(n.render(1), "    def __new__(cls, x: float, y: float): ...\n");
}

#[test]
fn constructor_without_args_binds_only_cls() {
    let n = NewDef { args: Vec::new() };
    assert_eq!(n.render(0), "def __new__(cls): ...\n");
}

#[test]
fn member_conversion_yields_plain_attribute() {
    let info = MemberInfo { name: "count", ty: int_ty(), doc: "how many" };
    let m = MemberDef::from(&info);
    assert!(!m.is_property);
    assert_eq!(m.name, "count");
    assert_eq!(m.doc, "how many");
    assert_eq!(m.render(0), "count: int\n    \"\"\"how many\"\"\"\n");
}

#[test]
fn method_conversion_keeps_order_and_flags() {
    let info = MethodInfo {
        name: "create",
        args: vec![
            Arg::plain(String::from("a"), int_ty()),
            Arg::plain(String::from("b"), float_ty()),
        ],
        ret: TypeInfo::unqualified(String::from("Point")),
        doc: "",
        is_static: false,
        is_class: true,
    };
    let m = MethodDef::from(&info);
    assert_eq!(m.render(0), "@classmethod\ndef create(cls, a: int, b: float) -> Point: ...\n");
}

#[test]
fn constructor_conversion_keeps_arguments() {
    let info = NewInfo { args: vec![Arg::plain(String::from("x"), int_ty())] };
    let n = NewDef::from(&info);
    assert_eq!(n.render(0), "def __new__(cls, x: int): ...\n");
}

#[test]
fn method_doc_final_line_ending_is_optional() {
    let m = MethodDef {
        name: "tick",
        args: Vec::new(),
        ret: int_ty(),
        doc: "Advances.\n",
        is_static: false,
        is_class: false,
    };
    let expected = "def tick(self) -> int:\n    r\"\"\"\n    Advances.\n    \"\"\"\n";
    assert_eq!(m.render(0), expected);
}

#[test]
fn method_doc_strips_carriage_return_line_endings() {
    let m = MethodDef {
        name: "tick",
        args: Vec::new(),
        ret: int_ty(),
        doc: "first\r\nsecond",
        is_static: false,
        is_class: false,
    };
    let expected = "def tick(self) -> int:\n    r\"\"\"\n    first\n    second\n    \"\"\"\n";
    assert_eq!(m.render(0), expected);
}
