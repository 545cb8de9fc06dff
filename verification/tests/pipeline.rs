//! End-to-end tests of the classification and emission pipeline on concrete
//! records.

use record_builder::builder;
use record_builder::field::BuilderField;
use record_builder::input::{Arg, Attr, Entry, Field, Record, Shape, Ty};
use record_builder::output::{BuildStep, InitDesc, MethodDesc, SlotDesc, SlotInit, SlotTy};

fn s(text: &str) -> String {
    text.to_owned()
}

/// A plain path type with no angle brackets, e.g. `String`.
fn plain_ty(name: &str) -> Ty {
    Ty {
        text: s(name),
        shape: Shape::Named {
            name: s(name),
            args: None,
        },
    }
}

/// A wrapper applied to one type argument, e.g. `Vec<String>`.
fn wrapped_ty(outer: &str, inner: &str) -> Ty {
    let mut text = String::new();
    text.push_str(outer);
    text.push('<');
    text.push_str(inner);
    text.push('>');
    Ty {
        text,
        shape: Shape::Named {
            name: s(outer),
            args: Some(vec![Arg::TypeArg(s(inner))]),
        },
    }
}

fn each_attr(alias: &str, span: u64) -> Attr {
    Attr {
        name: s("builder"),
        entries: vec![Entry::KeyValue {
            key: s("each"),
            value: s(alias),
            span,
        }],
    }
}

fn field(name: &str, ty: Ty, attrs: Vec<Attr>, span: u64) -> Field {
    Field {
        name: s(name),
        ty,
        attrs,
        span,
    }
}

/// The demonstration record with well-formed annotations: one mandatory,
/// one multi-valued with a differing alias, one multi-valued whose alias
/// equals the field name, one optional.
fn command_record() -> Record {
    Record {
        name: s("Command"),
        fields: vec![
            field("executable", plain_ty("String"), vec![], 1),
            field(
                "args",
                wrapped_ty("Vec", "String"),
                vec![each_attr("arg", 2)],
                2,
            ),
            field(
                "env",
                wrapped_ty("Vec", "String"),
                vec![each_attr("env", 3)],
                3,
            ),
            field("current_dir", wrapped_ty("Option", "String"), vec![], 4),
        ],
    }
}

#[test]
fn plain_fields_classify_mandatory() {
    let record = Record {
        name: s("Pair"),
        fields: vec![
            field("first", plain_ty("String"), vec![], 1),
            field("second", plain_ty("u32"), vec![], 2),
        ],
    };
    let generated = builder(&record).expect("plain record must classify");
    assert_eq!(generated.ty.name, s("PairBuilder"));
    assert_eq!(
        generated.ty.slots,
        vec![
            SlotDesc {
                name: s("first"),
                ty: SlotTy::OptionOf(s("String"))
            },
            SlotDesc {
                name: s("second"),
                ty: SlotTy::OptionOf(s("u32"))
            },
        ]
    );
    assert_eq!(
        generated.build.steps,
        vec![
            BuildStep::TakeRequired {
                slot: s("first"),
                message: s("first not set")
            },
            BuildStep::TakeRequired {
                slot: s("second"),
                message: s("second not set")
            },
        ]
    );
}

#[test]
fn optional_field_classifies_optional() {
    let record = Record {
        name: s("Conf"),
        fields: vec![field(
            "home",
            wrapped_ty("Option", "String"),
            vec![],
            7,
        )],
    };
    let generated = builder(&record).expect("optional record must classify");
    assert_eq!(
        generated.ty.slots,
        vec![SlotDesc {
            name: s("home"),
            ty: SlotTy::OptionOf(s("String"))
        }]
    );
    assert_eq!(
        generated.build.steps,
        vec![BuildStep::TakeDefault { slot: s("home") }]
    );
}

#[test]
fn command_record_generates_expected_artifacts() {
    let generated = builder(&command_record()).expect("well-formed record must classify");
    assert_eq!(generated.ty.name, s("CommandBuilder"));
    assert_eq!(
        generated.ty.slots,
        vec![
            SlotDesc {
                name: s("executable"),
                ty: SlotTy::OptionOf(s("String"))
            },
            SlotDesc {
                name: s("args"),
                ty: SlotTy::Container(s("Vec<String>"))
            },
            SlotDesc {
                name: s("env"),
                ty: SlotTy::Container(s("Vec<String>"))
            },
            SlotDesc {
                name: s("current_dir"),
                ty: SlotTy::OptionOf(s("String"))
            },
        ]
    );
    assert_eq!(generated.constructor.record, s("Command"));
    assert_eq!(generated.constructor.builder, s("CommandBuilder"));
    assert_eq!(
        generated.constructor.inits,
        vec![
            InitDesc {
                slot: s("executable"),
                init: SlotInit::Absent
            },
            InitDesc {
                slot: s("args"),
                init: SlotInit::Empty
            },
            InitDesc {
                slot: s("env"),
                init: SlotInit::Empty
            },
            InitDesc {
                slot: s("current_dir"),
                init: SlotInit::Absent
            },
        ]
    );
    assert_eq!(
        generated.setters.methods,
        vec![
            MethodDesc::Setter {
                name: s("executable"),
                param_ty: s("String")
            },
            MethodDesc::BulkSetter {
                name: s("args"),
                param_ty: s("Vec<String>")
            },
            MethodDesc::Setter {
                name: s("current_dir"),
                param_ty: s("String")
            },
            MethodDesc::Accumulator {
                name: s("arg"),
                slot: s("args"),
                elem_ty: s("String")
            },
            MethodDesc::Accumulator {
                name: s("env"),
                slot: s("env"),
                elem_ty: s("String")
            },
        ]
    );
    assert_eq!(
        generated.build.steps,
        vec![
            BuildStep::TakeRequired {
                slot: s("executable"),
                message: s("executable not set")
            },
            BuildStep::TakeDefault { slot: s("args") },
            BuildStep::TakeDefault { slot: s("env") },
            BuildStep::TakeDefault {
                slot: s("current_dir")
            },
        ]
    );
}

#[test]
fn alias_equal_to_field_name_suppresses_bulk_setter() {
    let generated = builder(&command_record()).expect("must classify");
    let env_bulk = generated.setters.methods.iter().any(|m| {
        matches!(m, MethodDesc::BulkSetter { name, .. } if name == "env")
    });
    assert!(!env_bulk);
    let env_accumulators = generated
        .setters
        .methods
        .iter()
        .filter(|m| matches!(m, MethodDesc::Accumulator { slot, .. } if slot == "env"))
        .count();
    assert_eq!(env_accumulators, 1);
}

#[test]
fn alias_differing_from_field_name_keeps_one_bulk_setter() {
    let generated = builder(&command_record()).expect("must classify");
    let args_bulk = generated
        .setters
        .methods
        .iter()
        .filter(|m| matches!(m, MethodDesc::BulkSetter { name, .. } if name == "args"))
        .count();
    assert_eq!(args_bulk, 1);
}

#[test]
fn aliases_preserved_in_order_including_duplicates() {
    let record = Record {
        name: s("Job"),
        fields: vec![field(
            "steps",
            wrapped_ty("Vec", "String"),
            vec![
                each_attr("step", 1),
                each_attr("stage", 2),
                each_attr("step", 3),
            ],
            9,
        )],
    };
    let generated = builder(&record).expect("must classify");
    let accumulator_names: Vec<String> = generated
        .setters
        .methods
        .iter()
        .filter_map(|m| match m {
            MethodDesc::Accumulator { name, .. } => Some(name.clone()),
            _ => None,
        })
        .collect();
    assert_eq!(accumulator_names, vec![s("step"), s("stage"), s("step")]);
}

#[test]
fn each_on_non_container_type_reports_mismatch() {
    let record = Record {
        name: s("Broken"),
        fields: vec![field(
            "env",
            plain_ty("String"),
            vec![each_attr("env", 5)],
            5,
        )],
    };
    let diags = builder(&record).expect_err("mismatched type must fail");
    assert_eq!(diags.len(), 1);
    assert_eq!(diags[0].span, 5);
    assert_eq!(
        diags[0].message,
        s("field `env` has `each` but its type `String` is not `Vec<...>`")
    );
}

#[test]
fn multiple_mismatched_fields_all_reported() {
    let record = Record {
        name: s("Broken"),
        fields: vec![
            field("a", plain_ty("String"), vec![each_attr("x", 1)], 1),
            field("ok", plain_ty("u8"), vec![], 2),
            field("b", plain_ty("bool"), vec![each_attr("y", 3)], 3),
        ],
    };
    let diags = builder(&record).expect_err("both mismatches must fail");
    assert_eq!(diags.len(), 2);
    assert_eq!(diags[0].span, 1);
    assert_eq!(
        diags[0].message,
        s("field `a` has `each` but its type `String` is not `Vec<...>`")
    );
    assert_eq!(diags[1].span, 3);
    assert_eq!(
        diags[1].message,
        s("field `b` has `each` but its type `bool` is not `Vec<...>`")
    );
}

#[test]
fn mistyped_key_reports_expected_form() {
    // The demonstration record as originally written: `eac` instead of
    // `each` on the `env` field.
    let record = Record {
        name: s("Command"),
        fields: vec![
            field("executable", plain_ty("String"), vec![], 1),
            field(
                "args",
                wrapped_ty("Vec", "String"),
                vec![each_attr("arg", 2)],
                2,
            ),
            field(
                "env",
                wrapped_ty("Vec", "String"),
                vec![Attr {
                    name: s("builder"),
                    entries: vec![Entry::KeyValue {
                        key: s("eac"),
                        value: s("env"),
                        span: 30,
                    }],
                }],
                3,
            ),
            field("current_dir", wrapped_ty("Option", "String"), vec![], 4),
        ],
    };
    let diags = builder(&record).expect_err("typo must fail");
    assert_eq!(diags.len(), 1);
    assert_eq!(diags[0].span, 30);
    assert_eq!(diags[0].message, s("expected `each = \"...\"`"));
}

#[test]
fn every_malformed_entry_reported_across_record() {
    let record = Record {
        name: s("Messy"),
        fields: vec![
            field(
                "a",
                wrapped_ty("Vec", "u8"),
                vec![Attr {
                    name: s("builder"),
                    entries: vec![
                        Entry::KeyValue {
                            key: s("eac"),
                            value: s("one"),
                            span: 11,
                        },
                        Entry::Malformed { span: 12 },
                    ],
                }],
                1,
            ),
            field(
                "b",
                wrapped_ty("Vec", "u8"),
                vec![Attr {
                    name: s("builder"),
                    entries: vec![Entry::KeyValue {
                        key: s("every"),
                        value: s("two"),
                        span: 21,
                    }],
                }],
                2,
            ),
        ],
    };
    let diags = builder(&record).expect_err("all malformed entries must fail");
    let spans: Vec<u64> = diags.iter().map(|d| d.span).collect();
    assert_eq!(spans, vec![11, 12, 21]);
    for d in &diags {
        assert_eq!(d.message, s("expected `each = \"...\"`"));
    }
}

#[test]
fn annotations_with_other_names_are_ignored() {
    let record = Record {
        name: s("Doc"),
        fields: vec![field(
            "text",
            plain_ty("String"),
            vec![Attr {
                name: s("serde"),
                entries: vec![Entry::Malformed { span: 99 }],
            }],
            1,
        )],
    };
    let generated = builder(&record).expect("unrecognized annotations are skipped");
    assert_eq!(
        generated.build.steps,
        vec![BuildStep::TakeRequired {
            slot: s("text"),
            message: s("text not set")
        }]
    );
}

#[test]
fn wrapper_match_requires_exactly_one_type_argument() {
    let two_args = Ty {
        text: s("Vec<String, Global>"),
        shape: Shape::Named {
            name: s("Vec"),
            args: Some(vec![Arg::TypeArg(s("String")), Arg::TypeArg(s("Global"))]),
        },
    };
    let record = Record {
        name: s("Odd"),
        fields: vec![field("xs", two_args, vec![each_attr("x", 4)], 4)],
    };
    let diags = builder(&record).expect_err("two arguments must not match");
    assert_eq!(diags.len(), 1);
    assert_eq!(diags[0].span, 4);
}

#[test]
fn non_type_argument_does_not_match_wrapper() {
    let lifetime_arg = Ty {
        text: s("Option<'a>"),
        shape: Shape::Named {
            name: s("Option"),
            args: Some(vec![Arg::OtherArg]),
        },
    };
    let record = Record {
        name: s("Odd"),
        fields: vec![field("r", lifetime_arg, vec![], 4)],
    };
    let generated = builder(&record).expect("must classify");
    // No optional-wrapper match: the field stays mandatory.
    assert_eq!(
        generated.build.steps,
        vec![BuildStep::TakeRequired {
            slot: s("r"),
            message: s("r not set")
        }]
    );
}

#[test]
fn non_path_type_classifies_mandatory() {
    let tuple_ty = Ty {
        text: s("(u8, u8)"),
        shape: Shape::Other,
    };
    let record = Record {
        name: s("Odd"),
        fields: vec![field("pair", tuple_ty, vec![], 4)],
    };
    let generated = builder(&record).expect("must classify");
    assert_eq!(
        generated.ty.slots,
        vec![SlotDesc {
            name: s("pair"),
            ty: SlotTy::OptionOf(s("(u8, u8)"))
        }]
    );
}

#[test]
fn empty_record_generates_empty_artifacts() {
    let record = Record {
        name: s("Unit"),
        fields: vec![],
    };
    let generated = builder(&record).expect("must classify");
    assert_eq!(generated.ty.name, s("UnitBuilder"));
    assert!(generated.ty.slots.is_empty());
    assert!(generated.constructor.inits.is_empty());
    assert!(generated.setters.methods.is_empty());
    assert!(generated.build.steps.is_empty());
}

#[test]
fn annotation_with_no_entries_declares_nothing() {
    let record = Record {
        name: s("Quiet"),
        fields: vec![field(
            "name",
            plain_ty("String"),
            vec![Attr {
                name: s("builder"),
                entries: vec![],
            }],
            1,
        )],
    };
    let generated = builder(&record).expect("empty annotation declares no alias");
    assert_eq!(
        generated.build.steps,
        vec![BuildStep::TakeRequired {
            slot: s("name"),
            message: s("name not set")
        }]
    );
}

#[test]
fn several_entries_in_one_annotation_all_count() {
    let record = Record {
        name: s("Job"),
        fields: vec![field(
            "steps",
            wrapped_ty("Vec", "String"),
            vec![Attr {
                name: s("builder"),
                entries: vec![
                    Entry::KeyValue {
                        key: s("each"),
                        value: s("step"),
                        span: 1,
                    },
                    Entry::KeyValue {
                        key: s("each"),
                        value: s("stage"),
                        span: 2,
                    },
                ],
            }],
            9,
        )],
    };
    let generated = builder(&record).expect("must classify");
    let accumulator_names: Vec<String> = generated
        .setters
        .methods
        .iter()
        .filter_map(|m| match m {
            MethodDesc::Accumulator { name, .. } => Some(name.clone()),
            _ => None,
        })
        .collect();
    assert_eq!(accumulator_names, vec![s("step"), s("stage")]);
}

#[test]
fn each_on_optional_wrapper_is_a_mismatch() {
    let record = Record {
        name: s("Conf"),
        fields: vec![field(
            "home",
            wrapped_ty("Option", "String"),
            vec![each_attr("h", 6)],
            6,
        )],
    };
    let diags = builder(&record).expect_err("optional wrapper is not the container shape");
    assert_eq!(diags.len(), 1);
    assert_eq!(
        diags[0].message,
        s("field `home` has `each` but its type `Option<String>` is not `Vec<...>`")
    );
}

#[test]
fn classify_single_field_directly() {
    let f = field(
        "args",
        wrapped_ty("Vec", "String"),
        vec![each_attr("arg", 2)],
        2,
    );
    let classified = BuilderField::try_from_field(&f).expect("must classify");
    match classified {
        BuilderField::Multi {
            ident,
            attrs,
            with_set_all,
            ty,
            elem_ty,
        } => {
            assert_eq!(ident, s("args"));
            assert_eq!(attrs, vec![s("arg")]);
            assert!(with_set_all);
            assert_eq!(ty, s("Vec<String>"));
            assert_eq!(elem_ty, s("String"));
        }
        other => panic!("expected Multi, got {:?}", other),
    }
}
