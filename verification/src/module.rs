//! Registration of native modules, constants and functions.
//!
//! Nothing is registered here. A registration is planned: every step is a
//! [`Declaration`], which says what the interpreter is to declare, under
//! which name and where. The plan is carried out elsewhere, once, before any
//! native function can be called.

use vstd::prelude::*;
use vstd::string::*;
use vstd::utf8::{encode_utf8, is_ascii_chars_encode_utf8};
use crate::string::{first_zero, lemma_terminator, terminator};
use crate::value::RubyValue;

verus! {

/// A native function, and the number of arguments that the interpreter
/// passes to it on every call, besides the receiver.
#[derive(Clone, Copy, Debug, PartialEq, Eq, Structural)]
pub struct Callback {
    /// The address of the function.
    pub pointer: usize,
    pub argc: i32,
}

/// The place of a declaration.
#[derive(Clone, Copy, Debug, PartialEq, Eq, Structural)]
pub enum Scope {
    /// The top level.
    Global,
    /// The module that an earlier declaration of the same plan makes, by
    /// that declaration's position in the plan.
    Planned(usize),
    /// A module that the interpreter has already, by its word.
    Handle(u64),
}

/// What is declared.
#[derive(Clone, Copy, Debug, PartialEq, Eq, Structural)]
pub enum Entry {
    /// A module.
    Module,
    /// A constant with the given word as its value.
    Constant { value: u64 },
    /// A method of the instances of the module.
    Method { callback: Callback },
    /// A function of the module itself; at the top level, a function that
    /// can be called from everywhere.
    ModuleFunction { callback: Callback },
}

/// One step of a registration.
#[derive(Debug)]
pub struct Declaration {
    pub scope: Scope,
    pub name: String,
    pub entry: Entry,
}

/// A declaration as a mathematical value.
pub struct DeclarationView {
    pub scope: Scope,
    pub name: Seq<char>,
    pub entry: Entry,
}

impl View for Declaration {
    type V = DeclarationView;

    open spec fn view(&self) -> DeclarationView {
        DeclarationView { scope: self.scope, name: self.name@, entry: self.entry }
    }
}

/// A name that the interpreter cannot take.
#[derive(Clone, Copy, Debug, PartialEq, Eq, Structural)]
pub struct NameError {
    /// The position of the first zero byte in the name.
    pub position: usize,
}

/// The interpreter takes a name as bytes that end before the first zero
/// byte. A name is representable where its bytes hold no zero.
pub open spec fn representable(name: Seq<char>) -> bool {
    forall|i: int| 0 <= i < encode_utf8(name).len() ==> encode_utf8(name)[i] != 0
}

/// A name is representable exactly where the terminator of its bytes is
/// their end.
pub proof fn lemma_representable(name: Seq<char>)
    ensures
        representable(name) <==> terminator(encode_utf8(name)) == encode_utf8(name).len(),
{
    lemma_terminator(encode_utf8(name));
}

/// A name of ASCII characters, none of them the zero character, is
/// representable.
pub proof fn lemma_ascii_name(name: Seq<char>)
    requires
        forall|i: int| 0 <= i < name.len() ==> '\u{1}' <= #[trigger] name[i] <= '\u{7f}',
    ensures
        representable(name),
{
    is_ascii_chars_encode_utf8(name);
    assert forall|i: int| 0 <= i < encode_utf8(name).len() implies encode_utf8(name)[i] != 0 by {
        let c = name[i];
        assert(c as u8 == encode_utf8(name)[i]);
        assert(1 <= c as u32 <= 0x7f);
    }
}

/// What a declaration under `name` comes to: the declaration, where the name
/// is representable, and else the place of the first zero byte.
pub open spec fn declares(
    outcome: Result<Declaration, NameError>,
    scope: Scope,
    name: Seq<char>,
    entry: Entry,
) -> bool {
    match outcome {
        Ok(declaration) => representable(name) && declaration@ == (DeclarationView {
            scope,
            name,
            entry,
        }),
        Err(e) => !representable(name) && e.position == terminator(encode_utf8(name)),
    }
}

/// Tests whether the interpreter can take the name.
pub fn check_name(name: &str) -> (outcome: Result<(), NameError>)
    ensures
        match outcome {
            Ok(_) => representable(name@),
            Err(e) => !representable(name@) && e.position == terminator(encode_utf8(name@)),
        },
{
    let bytes = name.as_bytes();
    let position: usize = first_zero(bytes);
    proof {
        lemma_representable(name@);
    }
    if position == bytes.len() {
        Ok(())
    } else {
        Err(NameError { position })
    }
}

fn declare(scope: Scope, name: &str, entry: Entry) -> (outcome: Result<Declaration, NameError>)
    ensures
        declares(outcome, scope, name@, entry),
{
    match check_name(name) {
        Ok(_) => Ok(Declaration { scope, name: String::from_str(name), entry }),
        Err(e) => Err(e),
    }
}

/// Declares a module at the top level.
pub fn rb_define_module(name: &str) -> (outcome: Result<Declaration, NameError>)
    ensures
        declares(outcome, Scope::Global, name@, Entry::Module),
{
    declare(Scope::Global, name, Entry::Module)
}

/// Declares a module inside the module `parent`.
pub fn rb_define_module_under(parent: &RubyValue, name: &str) -> (outcome: Result<
    Declaration,
    NameError,
>)
    ensures
        declares(outcome, Scope::Handle(parent.word), name@, Entry::Module),
{
    declare(Scope::Handle(parent.word), name, Entry::Module)
}

/// Declares a constant at the top level.
pub fn rb_define_global_const(name: &str, value: &RubyValue) -> (outcome: Result<
    Declaration,
    NameError,
>)
    ensures
        declares(outcome, Scope::Global, name@, Entry::Constant { value: value.word }),
{
    declare(Scope::Global, name, Entry::Constant { value: value.word })
}

/// Declares a constant inside the module `parent`.
pub fn rb_define_const(parent: &RubyValue, name: &str, value: &RubyValue) -> (outcome: Result<
    Declaration,
    NameError,
>)
    ensures
        declares(
            outcome,
            Scope::Handle(parent.word),
            name@,
            Entry::Constant { value: value.word },
        ),
{
    declare(Scope::Handle(parent.word), name, Entry::Constant { value: value.word })
}

/// Declares a method of the instances of the module `parent`.
pub fn rb_define_method(parent: &RubyValue, name: &str, func: Callback) -> (outcome: Result<
    Declaration,
    NameError,
>)
    ensures
        declares(outcome, Scope::Handle(parent.word), name@, Entry::Method { callback: func }),
{
    declare(Scope::Handle(parent.word), name, Entry::Method { callback: func })
}

/// Declares a function of the module `parent` itself.
pub fn rb_define_module_function(parent: &RubyValue, name: &str, func: Callback) -> (outcome:
    Result<Declaration, NameError>)
    ensures
        declares(
            outcome,
            Scope::Handle(parent.word),
            name@,
            Entry::ModuleFunction { callback: func },
        ),
{
    declare(Scope::Handle(parent.word), name, Entry::ModuleFunction { callback: func })
}

/// Declares a function that can be called from everywhere.
pub fn rb_define_global_function(name: &str, func: Callback) -> (outcome: Result<
    Declaration,
    NameError,
>)
    ensures
        declares(outcome, Scope::Global, name@, Entry::ModuleFunction { callback: func }),
{
    declare(Scope::Global, name, Entry::ModuleFunction { callback: func })
}

/// The declaration of a module at the top level.
pub open spec fn root(name: Seq<char>) -> DeclarationView {
    DeclarationView { scope: Scope::Global, name, entry: Entry::Module }
}

/// The declaration of a function of the module that the plan starts with.
pub open spec fn function_of_root(name: Seq<char>, func: Callback) -> DeclarationView {
    DeclarationView {
        scope: Scope::Planned(0),
        name,
        entry: Entry::ModuleFunction { callback: func },
    }
}

/// A plan that starts with a module of the top level and declares
/// everything else inside a module that the plan has declared before, under
/// names that are all representable.
pub open spec fn well_formed(plan: Seq<DeclarationView>) -> bool {
    &&& plan.len() >= 1
    &&& plan[0].scope == Scope::Global
    &&& plan[0].entry is Module
    &&& forall|j: int|
        1 <= j < plan.len() ==> (#[trigger] plan[j].scope matches Scope::Planned(i) && i < j
            && plan[i as int].entry is Module)
    &&& forall|j: int| 0 <= j < plan.len() ==> representable(#[trigger] plan[j].name)
}

/// The declaration of a module inside the module that the plan starts with.
pub open spec fn module_of_root(name: Seq<char>) -> DeclarationView {
    DeclarationView { scope: Scope::Planned(0), name, entry: Entry::Module }
}

/// A declaration of a plan as it stands behind `offset` declarations of
/// another plan: a place in its own plan lies `offset` places further on.
pub open spec fn rebased(declaration: DeclarationView, offset: int) -> DeclarationView {
    DeclarationView {
        scope: match declaration.scope {
            Scope::Planned(i) => Scope::Planned((i + offset) as usize),
            other => other,
        },
        name: declaration.name,
        entry: declaration.entry,
    }
}

/// The plan `outer`, then the module `name` inside `outer`'s first module,
/// then all that `inner` holds behind its own first declaration, as the
/// contents of the module `name`.
pub open spec fn nested(
    outer: Seq<DeclarationView>,
    name: Seq<char>,
    inner: Seq<DeclarationView>,
) -> Seq<DeclarationView> {
    outer.push(module_of_root(name)) + Seq::new(
        (inner.len() - 1) as nat,
        |j: int| rebased(inner[j + 1], outer.len() as int),
    )
}

/// Nesting one well-formed plan in another, under a representable name,
/// gives a well-formed plan in which the module of that name stands right
/// behind the outer plan, as long as the positions still fit the machine's
/// word.
pub proof fn lemma_nested_well_formed(
    outer: Seq<DeclarationView>,
    name: Seq<char>,
    inner: Seq<DeclarationView>,
)
    requires
        well_formed(outer),
        well_formed(inner),
        representable(name),
        outer.len() + inner.len() <= usize::MAX,
    ensures
        well_formed(nested(outer, name, inner)),
        nested(outer, name, inner).len() == outer.len() + inner.len(),
        nested(outer, name, inner)[outer.len() as int] == module_of_root(name),
        forall|j: int| 0 <= j < outer.len() ==> nested(outer, name, inner)[j] == outer[j],
{
    let plan = nested(outer, name, inner);
    let offset = outer.len() as int;
    assert(plan[offset] == module_of_root(name));
    assert(plan[0] == outer[0]);
    assert forall|j: int| 1 <= j < plan.len() implies (#[trigger] plan[j].scope matches Scope::Planned(
        i,
    ) && i < j && plan[i as int].entry is Module) by {
        if j < offset {
            assert(plan[j] == outer[j]);
            let i = outer[j].scope->Planned_0;
            assert(plan[i as int] == outer[i as int]);
        } else if j == offset {
        } else {
            let k = j - offset;
            assert(plan[j] == rebased(inner[k], offset));
            let i = inner[k].scope->Planned_0;
            if i == 0 {
                assert(plan[offset] == module_of_root(name));
            } else {
                assert(plan[i + offset] == rebased(inner[i as int], offset));
            }
        }
    }
    assert forall|j: int| 0 <= j < plan.len() implies representable(#[trigger] plan[j].name) by {
        if j < offset {
            assert(plan[j] == outer[j]);
        } else if j == offset {
        } else {
            assert(plan[j] == rebased(inner[j - offset], offset));
        }
    }
}

/// A module under construction: its own declaration, and the declarations
/// of all that was added to it, in the order in which it was added.
pub struct RubyModule {
    plan: Vec<Declaration>,
}

impl View for RubyModule {
    type V = Seq<DeclarationView>;

    closed spec fn view(&self) -> Seq<DeclarationView> {
        Seq::new(self.plan@.len(), |j: int| self.plan@[j]@)
    }
}

impl RubyModule {
    #[verifier::type_invariant]
    spec fn inv(&self) -> bool {
        well_formed(self@)
    }

    /// Plans a module of the top level.
    pub fn new(name: &str) -> (module: RubyModule)
        requires
            representable(name@),
        ensures
            module@ == seq![root(name@)],
            well_formed(module@),
    {
        let mut plan: Vec<Declaration> = Vec::new();
        plan.push(Declaration { scope: Scope::Global, name: String::from_str(name), entry: Entry::Module });
        proof {
            let after = Seq::new(plan@.len(), |j: int| plan@[j]@);
            assert(after =~= seq![root(name@)]);
        }
        RubyModule { plan }
    }

    /// Adds a function of the module itself.
    pub fn add_method(self, name: &str, func: Callback) -> (module: RubyModule)
        requires
            representable(name@),
        ensures
            module@ == self@.push(function_of_root(name@, func)),
            well_formed(module@),
    {
        proof {
            use_type_invariant(&self);
        }
        let ghost before = self@;
        let mut plan = self.plan;
        plan.push(
            Declaration {
                scope: Scope::Planned(0),
                name: String::from_str(name),
                entry: Entry::ModuleFunction { callback: func },
            },
        );
        proof {
            let after = Seq::new(plan@.len(), |j: int| plan@[j]@);
            assert(after =~= before.push(function_of_root(name@, func)));
        }
        RubyModule { plan }
    }

    /// Adds a module inside the module. The new module is declared whatever
    /// `builder` does. `builder` gets the new module and gives back what it
    /// made of it: all that stands behind the first declaration of what it
    /// gives back becomes the contents of the new module.
    pub fn add_sub_module<F: FnOnce(RubyModule) -> RubyModule>(self, name: &str, builder: F) -> (module:
        RubyModule)
        requires
            representable(name@),
            forall|sub: RubyModule| sub@ == seq![root(name@)] ==> call_requires(builder, (sub,)),
        ensures
            exists|sub: RubyModule, built: RubyModule|
                {
                    &&& sub@ == seq![root(name@)]
                    &&& #[trigger] call_ensures(builder, (sub,), built)
                    &&& module@ == nested(self@, name@, built@)
                },
            module@[self@.len() as int] == module_of_root(name@),
            forall|j: int| 0 <= j < self@.len() ==> module@[j] == self@[j],
            well_formed(module@),
    {
        proof {
            use_type_invariant(&self);
        }
        let ghost outer = self@;
        let sub = RubyModule::new(name);
        let ghost given = sub;
        let built = builder(sub);
        proof {
            use_type_invariant(&built);
        }
        let ghost inner = built@;
        let mut plan = self.plan;
        let offset: usize = plan.len();
        plan.push(
            Declaration {
                scope: Scope::Planned(0),
                name: String::from_str(name),
                entry: Entry::Module,
            },
        );
        let added = built.plan;
        let mut j: usize = 1;
        while j < added.len()
            invariant
                1 <= j <= added@.len(),
                offset == outer.len(),
                inner.len() == added@.len(),
                forall|k: int| 0 <= k < added@.len() ==> added@[k]@ == inner[k],
                well_formed(inner),
                plan@.len() == offset + j,
                forall|k: int| 0 <= k < offset ==> plan@[k]@ == outer[k],
                plan@[offset as int]@ == module_of_root(name@),
                forall|k: int| 1 <= k < j ==> plan@[offset + k]@ == rebased(inner[k], offset as int),
            decreases added@.len() - j,
        {
            // The length of a vector fits the machine's word, and so does
            // every position below it.
            let _length: usize = plan.len();
            let declaration = &added[j];
            assert(declaration@ == inner[j as int]);
            let scope = match declaration.scope {
                Scope::Planned(i) => {
                    assert(inner[j as int].scope matches Scope::Planned(p) && p < j);
                    Scope::Planned(i + offset)
                },
                other => other,
            };
            plan.push(
                Declaration {
                    scope,
                    name: String::from_str(declaration.name.as_str()),
                    entry: declaration.entry,
                },
            );
            j = j + 1;
        }
        let _total: usize = plan.len();
        proof {
            let after = Seq::new(plan@.len(), |j: int| plan@[j]@);
            assert(after =~= nested(outer, name@, inner));
            lemma_nested_well_formed(outer, name@, inner);
            assert(call_ensures(builder, (given,), built));
        }
        RubyModule { plan }
    }

    /// The plan: the module's own declaration first, and every other
    /// declaration behind the one of the module that it belongs to.
    pub fn declarations(self) -> (plan: Vec<Declaration>)
        ensures
            well_formed(self@),
            plan@.len() == self@.len(),
            forall|j: int| 0 <= j < plan@.len() ==> plan@[j]@ == self@[j],
    {
        proof {
            use_type_invariant(&self);
        }
        self.plan
    }
}

} // verus!
