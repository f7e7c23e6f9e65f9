use emery::{
    check_name, rb_define_const, rb_define_global_const, rb_define_global_function,
    rb_define_method, rb_define_module, rb_define_module_function, rb_define_module_under,
    Callback, Declaration, Entry, NameError, RubyModule, RubyValue, Scope,
};

fn callback(pointer: usize, argc: i32) -> Callback {
    Callback { pointer, argc }
}

fn summary(plan: &[Declaration]) -> Vec<(Scope, String, Entry)> {
    plan.iter().map(|d| (d.scope, d.name.clone(), d.entry)).collect()
}

#[test]
fn module_submodule_and_function() {
    let f = callback(0x4010, 1);
    let plan = RubyModule::new("M")
        .add_sub_module("S", |s| s.add_method("f", f))
        .declarations();
    assert_eq!(
        summary(&plan),
        vec![
            (Scope::Global, "M".to_string(), Entry::Module),
            (Scope::Planned(0), "S".to_string(), Entry::Module),
            (Scope::Planned(1), "f".to_string(), Entry::ModuleFunction { callback: f }),
        ]
    );
    match plan[2].entry {
        Entry::ModuleFunction { callback } => assert_eq!(callback.argc, 1),
        _ => panic!("a function was expected"),
    }
}

#[test]
fn name_with_a_zero_byte_is_refused() {
    assert_eq!(check_name("bad\0name"), Err(NameError { position: 3 }));
    assert_eq!(check_name("\0"), Err(NameError { position: 0 }));
    assert_eq!(check_name("a\0b\0"), Err(NameError { position: 1 }));
    assert_eq!(rb_define_module("M\0").err(), Some(NameError { position: 1 }));
    let parent = RubyValue::new(0x7f00_1000);
    assert_eq!(rb_define_module_under(&parent, "\0S").err(), Some(NameError { position: 0 }));
    assert_eq!(
        rb_define_const(&parent, "C\0", &RubyValue::new(3)).err(),
        Some(NameError { position: 1 })
    );
    assert_eq!(
        rb_define_global_const("GL\0BAL", &RubyValue::new(3)).err(),
        Some(NameError { position: 2 })
    );
    assert_eq!(
        rb_define_method(&parent, "me\0", callback(1, 0)).err(),
        Some(NameError { position: 2 })
    );
    assert_eq!(
        rb_define_module_function(&parent, "fun\0", callback(1, 0)).err(),
        Some(NameError { position: 3 })
    );
    assert_eq!(
        rb_define_global_function("\0\0", callback(1, 0)).err(),
        Some(NameError { position: 0 })
    );
}

#[test]
fn names_without_a_zero_byte_are_taken() {
    assert_eq!(check_name("EMERY"), Ok(()));
    assert_eq!(check_name("all_whitespace?"), Ok(()));
    assert_eq!(check_name(""), Ok(()));
    assert_eq!(check_name("gr\u{fc}n"), Ok(()));
    assert_eq!(check_name("\u{100}"), Ok(()));
}

#[test]
fn single_declarations() {
    let parent = RubyValue::new(0x7f00_1000);
    let value = RubyValue::new(0x55);
    let f = callback(0x4010, 1);
    let cases = vec![
        (rb_define_module("Digest"), Scope::Global, "Digest", Entry::Module),
        (
            rb_define_module_under(&parent, "FNV1a64"),
            Scope::Handle(0x7f00_1000),
            "FNV1a64",
            Entry::Module,
        ),
        (
            rb_define_global_const("ANSWER", &value),
            Scope::Global,
            "ANSWER",
            Entry::Constant { value: 0x55 },
        ),
        (
            rb_define_const(&parent, "EMERY", &value),
            Scope::Handle(0x7f00_1000),
            "EMERY",
            Entry::Constant { value: 0x55 },
        ),
        (
            rb_define_method(&parent, "blank?", f),
            Scope::Handle(0x7f00_1000),
            "blank?",
            Entry::Method { callback: f },
        ),
        (
            rb_define_module_function(&parent, "hexdigest", f),
            Scope::Handle(0x7f00_1000),
            "hexdigest",
            Entry::ModuleFunction { callback: f },
        ),
        (
            rb_define_global_function("puts2", f),
            Scope::Global,
            "puts2",
            Entry::ModuleFunction { callback: f },
        ),
    ];
    for (outcome, scope, name, entry) in cases {
        let declaration = outcome.ok().expect("a declaration");
        assert_eq!(declaration.scope, scope);
        assert_eq!(declaration.name, name);
        assert_eq!(declaration.entry, entry);
    }
}

#[test]
fn new_module_is_its_own_declaration() {
    let plan = RubyModule::new("EMERY").declarations();
    assert_eq!(summary(&plan), vec![(Scope::Global, "EMERY".to_string(), Entry::Module)]);
}

#[test]
fn functions_follow_in_the_order_they_were_added() {
    let blank = callback(0x4010, 1);
    let fresh = callback(0x4020, 0);
    let plan = RubyModule::new("EMERY")
        .add_method("all_whitespace?", blank)
        .add_method("new_string", fresh)
        .declarations();
    assert_eq!(
        summary(&plan),
        vec![
            (Scope::Global, "EMERY".to_string(), Entry::Module),
            (
                Scope::Planned(0),
                "all_whitespace?".to_string(),
                Entry::ModuleFunction { callback: blank }
            ),
            (Scope::Planned(0), "new_string".to_string(), Entry::ModuleFunction { callback: fresh }),
        ]
    );
}

#[test]
fn nested_modules_point_at_their_parents() {
    let f = callback(1, 1);
    let g = callback(2, 0);
    let h = callback(3, 1);
    let plan = RubyModule::new("Digest")
        .add_method("version", g)
        .add_sub_module("FNV1a64", |m| {
            m.add_method("hexdigest", f).add_sub_module("Inner", |i| i.add_method("deep", h))
        })
        .add_sub_module("FNV1a128", |m| m.add_method("hexdigest", f))
        .add_method("last", g)
        .declarations();
    assert_eq!(
        summary(&plan),
        vec![
            (Scope::Global, "Digest".to_string(), Entry::Module),
            (Scope::Planned(0), "version".to_string(), Entry::ModuleFunction { callback: g }),
            (Scope::Planned(0), "FNV1a64".to_string(), Entry::Module),
            (Scope::Planned(2), "hexdigest".to_string(), Entry::ModuleFunction { callback: f }),
            (Scope::Planned(2), "Inner".to_string(), Entry::Module),
            (Scope::Planned(4), "deep".to_string(), Entry::ModuleFunction { callback: h }),
            (Scope::Planned(0), "FNV1a128".to_string(), Entry::Module),
            (Scope::Planned(6), "hexdigest".to_string(), Entry::ModuleFunction { callback: f }),
            (Scope::Planned(0), "last".to_string(), Entry::ModuleFunction { callback: g }),
        ]
    );
}

#[test]
fn every_declaration_follows_the_module_it_belongs_to() {
    let f = callback(1, 1);
    let plan = RubyModule::new("A")
        .add_sub_module("B", |b| b.add_sub_module("C", |c| c.add_method("f", f)).add_method("g", f))
        .add_sub_module("D", |d| d)
        .declarations();
    assert_eq!(plan[0].scope, Scope::Global);
    for (position, declaration) in plan.iter().enumerate().skip(1) {
        match declaration.scope {
            Scope::Planned(parent) => {
                assert!(parent < position);
                assert_eq!(plan[parent].entry, Entry::Module);
            }
            _ => panic!("a place inside the plan was expected"),
        }
    }
}

#[test]
fn submodule_is_declared_whatever_the_builder_does() {
    let f = callback(1, 0);
    let plan = RubyModule::new("M")
        .add_sub_module("S", |_| RubyModule::new("Other").add_method("f", f))
        .declarations();
    assert_eq!(
        summary(&plan),
        vec![
            (Scope::Global, "M".to_string(), Entry::Module),
            (Scope::Planned(0), "S".to_string(), Entry::Module),
            (Scope::Planned(1), "f".to_string(), Entry::ModuleFunction { callback: f }),
        ]
    );
    let plan = RubyModule::new("M").add_sub_module("S", |_| RubyModule::new("Other")).declarations();
    assert_eq!(
        summary(&plan),
        vec![
            (Scope::Global, "M".to_string(), Entry::Module),
            (Scope::Planned(0), "S".to_string(), Entry::Module),
        ]
    );
}

#[test]
fn submodule_stands_right_behind_what_was_there() {
    let f = callback(1, 1);
    let plan = RubyModule::new("M")
        .add_method("a", f)
        .add_method("b", f)
        .add_sub_module("S", |s| s.add_method("c", f))
        .declarations();
    assert_eq!(plan.len(), 5);
    assert_eq!(plan[3].scope, Scope::Planned(0));
    assert_eq!(plan[3].name, "S");
    assert_eq!(plan[3].entry, Entry::Module);
    assert_eq!(plan[4].scope, Scope::Planned(3));
    assert_eq!(plan[4].name, "c");
}
