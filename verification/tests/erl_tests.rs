use gleam_erl::ast::{Arg, BinOp, Clause, Expr, Module, Pattern, Scope, Statement};
use gleam_erl::codegen::module;

fn s(x: &str) -> String {
    x.to_string()
}

fn int_lit(value: i64) -> Expr {
    Expr::Int { value }
}

fn float(value: &str) -> Expr {
    Expr::Float { value: s(value) }
}

fn atom(value: &str) -> Expr {
    Expr::Atom { value: s(value) }
}

fn private_fun(name: &str, body: Expr) -> Statement {
    Statement::Function { public: false, name: s(name), args: vec![], body }
}

#[test]
fn module_test() {
    let m = Module {
        name: s("magic"),
        statements: vec![
            Statement::ExternalType { public: true, name: s("Any") },
            Statement::TypeDefinition { public: true, name: s("Any") },
            Statement::Import { module: s("result") },
            Statement::ExternalFunction {
                public: false,
                name: s("add_ints"),
                foreign_module: s("int"),
                foreign_name: s("add"),
                arity: 2,
            },
            Statement::ExternalFunction {
                public: true,
                name: s("map"),
                foreign_module: s("maps"),
                foreign_name: s("new"),
                arity: 0,
            },
        ],
    };
    let expected = "-module(magic).

add_ints(A, B) ->
    int:add(A, B).

-export([map/0]).
map() ->
    maps:new().
"
    .to_string();
    assert_eq!(expected, module(m).unwrap());
}

#[test]
fn expr_test() {
    let m = Module {
        name: s("term"),
        statements: vec![
            private_fun("atom", atom("ok")),
            private_fun("int", int_lit(176)),
            private_fun("float", float("11177.324401")),
            private_fun("nil", Expr::Nil),
            private_fun("record_nil", Expr::RecordNil),
            private_fun(
                "tup",
                Expr::Tuple { elems: vec![int_lit(1), float("2.0")] },
            ),
            private_fun("string", Expr::Str { value: s("Hello there!") }),
            private_fun(
                "seq",
                Expr::Sequence { first: Box::new(int_lit(1)), then: Box::new(int_lit(2)) },
            ),
            private_fun(
                "bin_op",
                Expr::BinOp {
                    name: BinOp::AddInt,
                    left: Box::new(int_lit(1)),
                    right: Box::new(int_lit(2)),
                },
            ),
            private_fun("enum1", Expr::Enum { name: s("Nil"), args: vec![] }),
            private_fun(
                "enum2",
                Expr::Enum { name: s("Ok"), args: vec![int_lit(1), float("2.0")] },
            ),
            private_fun(
                "let",
                Expr::Let {
                    pattern: Pattern::Var { name: s("OneTwo") },
                    value: Box::new(int_lit(1)),
                    then: Box::new(Expr::Var { name: s("one_two"), scope: Scope::Local }),
                },
            ),
        ],
    };
    let expected = "-module(term).

atom() ->
    'ok'.

int() ->
    176.

float() ->
    11177.324401.

nil() ->
    [].

record_nil() ->
    #{}.

tup() ->
    {1, 2.0}.

string() ->
    <<\"Hello there!\">>.

seq() ->
    1,
    2.

bin_op() ->
    1 + 2.

enum1() ->
    'nil'.

enum2() ->
    {'ok', 1, 2.0}.

let() ->
    OneTwo = 1,
    OneTwo.
"
    .to_string();
    assert_eq!(expected, module(m).unwrap());
}

#[test]
fn args_test() {
    let m = Module {
        name: s("term"),
        statements: vec![Statement::Function {
            public: false,
            name: s("some_function"),
            args: vec![
                Arg { name: s("arg_one") },
                Arg { name: s("arg_two") },
                Arg { name: s("arg_3") },
                Arg { name: s("arg4") },
                Arg { name: s("arg_four") },
                Arg { name: s("arg__five") },
                Arg { name: s("arg_six") },
                Arg { name: s("arg_that_is_long") },
            ],
            body: atom("ok"),
        }],
    };
    let expected = "-module(term).

some_function(ArgOne,
              ArgTwo,
              Arg3,
              Arg4,
              ArgFour,
              ArgFive,
              ArgSix,
              ArgThatIsLong) ->
    'ok'.
"
    .to_string();
    assert_eq!(expected, module(m).unwrap());
}

#[test]
fn test_test() {
    let m = Module {
        name: s("term"),
        statements: vec![Statement::Test { name: s("bang"), body: atom("ok") }],
    };
    let expected = "-module(term).

-ifdef(TEST).
bang_test() ->
    'ok'.
-endif.
"
    .to_string();
    assert_eq!(expected, module(m).unwrap());
}

#[test]
fn var_test() {
    let m = Module {
        name: s("vars"),
        statements: vec![
            private_fun("arg", Expr::Var { name: s("some_arg"), scope: Scope::Local }),
            private_fun(
                "some_arg",
                Expr::Var {
                    name: s("some_arg"),
                    scope: Scope::Constant { value: Box::new(atom("hello")) },
                },
            ),
        ],
    };
    let expected = "-module(vars).

arg() ->
    SomeArg.

some_arg() ->
    'hello'.
"
    .to_string();
    assert_eq!(expected, module(m).unwrap());
}

#[test]
fn cast_test() {
    let clause = |pattern: Pattern| Clause { pattern, body: int_lit(1) };
    let m = Module {
        name: s("my_mod"),
        statements: vec![private_fun(
            "go",
            Expr::Case {
                subject: Box::new(int_lit(1)),
                clauses: vec![
                    clause(Pattern::Int { value: 1 }),
                    clause(Pattern::Float { value: s("1.0") }),
                    clause(Pattern::Atom { value: s("ok") }),
                    clause(Pattern::Str { value: s("hello") }),
                    clause(Pattern::Tuple {
                        elems: vec![Pattern::Int { value: 1 }, Pattern::Int { value: 2 }],
                    }),
                    clause(Pattern::Nil),
                    clause(Pattern::Enum {
                        name: s("Error"),
                        args: vec![Pattern::Int { value: 2 }],
                    }),
                    clause(Pattern::Cons {
                        head: Box::new(Pattern::Int { value: 1 }),
                        tail: Box::new(Pattern::Nil),
                    }),
                ],
            },
        )],
    };
    let expected = "-module(my_mod).

go() ->
    case 1 of
        1 -> 1;
        1.0 -> 1;
        'ok' -> 1;
        <<\"hello\">> -> 1;
        {1, 2} -> 1;
        [] -> 1;
        {'error', 2} -> 1;
        [1 | []] -> 1
    end.
"
    .to_string();
    assert_eq!(expected, module(m).unwrap());
}
