use gleam_erl::ast::{Arg, Clause, Expr, Module, Pattern, Scope, Statement};
use gleam_erl::codegen::{module, Unsupported};

fn s(x: &str) -> String {
    x.to_string()
}

fn atom(value: &str) -> Expr {
    Expr::Atom { value: s(value) }
}

fn private_fun(name: &str, body: Expr) -> Statement {
    Statement::Function { public: false, name: s(name), args: vec![], body }
}

fn one_fun_module(body: Expr) -> Module {
    Module { name: s("m"), statements: vec![private_fun("go", body)] }
}

// The end-to-end scenario: one private function whose body is an atom.
#[test]
fn end_to_end_test() {
    let m = Module { name: s("term"), statements: vec![private_fun("atom", atom("ok"))] };
    assert_eq!("-module(term).\n\natom() ->\n    'ok'.\n", module(m).unwrap());
}

// Erased statements leave no trace: with and without them, byte-identical.
#[test]
fn erasure_test() {
    let with_erased = Module {
        name: s("term"),
        statements: vec![
            Statement::Import { module: s("result") },
            private_fun("atom", atom("ok")),
            Statement::TypeDefinition { public: true, name: s("Any") },
            private_fun("other", atom("no")),
            Statement::ExternalType { public: false, name: s("Blob") },
        ],
    };
    let without = Module {
        name: s("term"),
        statements: vec![private_fun("atom", atom("ok")), private_fun("other", atom("no"))],
    };
    assert_eq!(module(without).unwrap(), module(with_erased).unwrap());
}

// A public function emits exactly one export line, right before its
// definition; a private one emits none.
#[test]
fn visibility_test() {
    let public_fun = Module {
        name: s("m"),
        statements: vec![Statement::Function {
            public: true,
            name: s("f"),
            args: vec![Arg { name: s("x") }],
            body: atom("ok"),
        }],
    };
    assert_eq!(
        "-module(m).\n-export([f/1]).\n\nf(X) ->\n    'ok'.\n",
        module(public_fun).unwrap()
    );
    let private_fun_m = Module {
        name: s("m"),
        statements: vec![Statement::Function {
            public: false,
            name: s("f"),
            args: vec![Arg { name: s("x") }],
            body: atom("ok"),
        }],
    };
    assert_eq!("-module(m).\n\nf(X) ->\n    'ok'.\n", module(private_fun_m).unwrap());
}

// A short argument list stays on one line.
#[test]
fn two_args_test() {
    let m = Module {
        name: s("term"),
        statements: vec![Statement::Function {
            public: false,
            name: s("some_function"),
            args: vec![Arg { name: s("arg_one") }, Arg { name: s("arg_two") }],
            body: atom("ok"),
        }],
    };
    assert_eq!(
        "-module(term).\n\nsome_function(ArgOne, ArgTwo) ->\n    'ok'.\n",
        module(m).unwrap()
    );
}

// Building a constructor value and matching it use the same atom and arity.
#[test]
fn tagged_tuple_symmetry_test() {
    let m = one_fun_module(Expr::Case {
        subject: Box::new(Expr::Enum {
            name: s("Error"),
            args: vec![Expr::Int { value: 2 }],
        }),
        clauses: vec![Clause {
            pattern: Pattern::Enum { name: s("Error"), args: vec![Pattern::Int { value: 2 }] },
            body: Expr::Int { value: 1 },
        }],
    });
    assert_eq!(
        "-module(m).\n\ngo() ->\n    case {'error', 2} of\n        {'error', 2} -> 1\n    end.\n",
        module(m).unwrap()
    );
}

// A constant-scoped variable renders as the held value: no variable name
// survives into the output.
#[test]
fn constant_substitution_test() {
    let direct = one_fun_module(atom("hello"));
    let via_constant = one_fun_module(Expr::Var {
        name: s("some_name"),
        scope: Scope::Constant { value: Box::new(atom("hello")) },
    });
    let rendered = module(via_constant).unwrap();
    assert_eq!(module(direct).unwrap(), rendered);
    assert!(!rendered.contains("SomeName"));
}

// A negative integer literal keeps its sign.
#[test]
fn negative_int_test() {
    let m = one_fun_module(Expr::Int { value: -57 });
    assert_eq!("-module(m).\n\ngo() ->\n    -57.\n", module(m).unwrap());
}

// A cons expression renders as `[head | tail]`.
#[test]
fn cons_expr_test() {
    let m = one_fun_module(Expr::Cons {
        head: Box::new(Expr::Int { value: 1 }),
        tail: Box::new(Expr::Nil),
    });
    assert_eq!("-module(m).\n\ngo() ->\n    [1 | []].\n", module(m).unwrap());
}

// A nested cons chain stays in binary form: it is not flattened into a
// list literal.
#[test]
fn nested_cons_expr_test() {
    let m = one_fun_module(Expr::Cons {
        head: Box::new(Expr::Int { value: 1 }),
        tail: Box::new(Expr::Cons {
            head: Box::new(Expr::Int { value: 2 }),
            tail: Box::new(Expr::Nil),
        }),
    });
    assert_eq!("-module(m).\n\ngo() ->\n    [1 | [2 | []]].\n", module(m).unwrap());
}

#[test]
fn unsupported_module_var_test() {
    let m = one_fun_module(Expr::Var { name: s("x"), scope: Scope::Module });
    assert_eq!(Err(Unsupported::ModuleScopeVariable), module(m));
}

#[test]
fn unsupported_fun_test() {
    let m = one_fun_module(Expr::Fun);
    assert_eq!(Err(Unsupported::FunctionLiteral), module(m));
}

#[test]
fn unsupported_call_test() {
    let m = one_fun_module(Expr::Call);
    assert_eq!(Err(Unsupported::FunctionCall), module(m));
}

#[test]
fn unsupported_record_cons_test() {
    let m = one_fun_module(Expr::RecordCons);
    assert_eq!(Err(Unsupported::RecordConstructor), module(m));
}

#[test]
fn unsupported_record_select_test() {
    let m = one_fun_module(Expr::RecordSelect);
    assert_eq!(Err(Unsupported::RecordAccess), module(m));
}

#[test]
fn unsupported_module_select_test() {
    let m = one_fun_module(Expr::ModuleSelect);
    assert_eq!(Err(Unsupported::ModuleAccess), module(m));
}

// The first unsupported construct, in statement order, names the error.
#[test]
fn first_error_wins_test() {
    let m = Module {
        name: s("m"),
        statements: vec![
            private_fun("a", Expr::Call),
            private_fun("b", Expr::Fun),
        ],
    };
    assert_eq!(Err(Unsupported::FunctionCall), module(m));
}

// Identifier mangling: a name already in camel case stays, underscores and
// digits are handled, and constructor names become lower-case atoms.
#[test]
fn mangle_test() {
    let m = Module {
        name: s("m"),
        statements: vec![
            private_fun("a", Expr::Var { name: s("OneTwo"), scope: Scope::Local }),
            private_fun("b", Expr::Enum { name: s("OneTwo"), args: vec![] }),
        ],
    };
    assert_eq!(
        "-module(m).\n\na() ->\n    OneTwo.\n\nb() ->\n    'one_two'.\n",
        module(m).unwrap()
    );
}

// A module with no statements is just its header.
#[test]
fn empty_module_test() {
    let m = Module { name: s("blank"), statements: vec![] };
    assert_eq!("-module(blank).\n", module(m).unwrap());
}
