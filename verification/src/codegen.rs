use vstd::prelude::*;
use vstd::string::{StrSliceExecFns, StringExecFns};

use crate::ast::{Arg, BinOp, Clause, Expr, Module, Pattern, Scope, Statement};
use crate::decimal::{int_dec, spec_dec, spec_udec, udec_usize};
use crate::doc::{
    concat, concat_docv, delim, dv, dvs, join, join_docv, line, nil, spec_format, text, text_str,
    DocV, Document,
};
use crate::mangle::{camel_of, snake_of, to_camel, to_snake};

verus! {

/// The indentation step, in columns, for function and clause bodies.
pub const INDENT: usize = 4;

/// A construct the generator does not support yet: translation fails fast
/// on it, naming the construct, rather than emitting wrong output.
#[derive(Clone, Copy, PartialEq, Eq, Structural, Debug)]
pub enum Unsupported {
    /// A module-scoped variable reference.
    ModuleScopeVariable,
    /// A first-class function literal.
    FunctionLiteral,
    /// A direct function call.
    FunctionCall,
    /// A record extension.
    RecordConstructor,
    /// A record field access.
    RecordAccess,
    /// A module member access.
    ModuleAccess,
}

// ---------------------------------------------------------------------------
// Shorthands over the document model
// ---------------------------------------------------------------------------

/// One model document after another.
pub open spec fn cv(a: DocV, b: DocV) -> DocV {
    DocV::Cons(Box::new(a), Box::new(b))
}

/// A model text document.
pub open spec fn tv(s: Seq<char>) -> DocV {
    DocV::Text(s)
}

/// A nested model document.
pub open spec fn nestv(n: nat, d: DocV) -> DocV {
    DocV::Nest(n, Box::new(d))
}

/// A model document indented to its starting column.
pub open spec fn ncv(d: DocV) -> DocV {
    DocV::NestCurrent(Box::new(d))
}

/// A model group.
pub open spec fn groupv(d: DocV) -> DocV {
    DocV::Group(Box::new(d))
}

/// The model of the comma delimiter.
pub open spec fn delim_v() -> DocV {
    DocV::Break { broken: ","@, unbroken: ","@ + " "@ }
}

// ---------------------------------------------------------------------------
// The document each construct translates to
// ---------------------------------------------------------------------------

/// An atom literal: the value between single quotes.
pub open spec fn spec_atom(v: Seq<char>) -> DocV {
    cv(cv(tv("'"@), tv(v)), tv("'"@))
}

/// A string literal: the value as a binary literal.
pub open spec fn spec_string(v: Seq<char>) -> DocV {
    cv(cv(tv("<<\""@), tv(v)), tv("\">>"@))
}

/// A tuple: the element documents joined by commas, in braces, as a group.
pub open spec fn spec_tuple(ds: Seq<DocV>) -> DocV {
    groupv(cv(cv(tv("{"@), ncv(join_docv(ds, delim_v()))), tv("}"@)))
}

/// A sequence: the first expression, a comma, a line break, the second.
pub open spec fn spec_seq_docv(a: DocV, b: DocV) -> DocV {
    cv(cv(cv(a, tv(","@)), DocV::Line), b)
}

/// The target token of each binary operator.
pub open spec fn spec_op_token(op: BinOp) -> Seq<char> {
    match op {
        BinOp::Pipe => "|>"@,
        BinOp::Lt => "<"@,
        BinOp::LtEq => "=<"@,
        BinOp::Eq => "=:="@,
        BinOp::GtEq => ">="@,
        BinOp::Gt => ">"@,
        BinOp::AddInt => "+"@,
        BinOp::AddFloat => "+"@,
        BinOp::SubInt => "-"@,
        BinOp::SubFloat => "-"@,
        BinOp::MultInt => "*"@,
        BinOp::MultFloat => "*"@,
        BinOp::DivInt => "div"@,
        BinOp::DivFloat => "/"@,
    }
}

/// A binary operator application: left, a breakable space, the token, a
/// space, right.
pub open spec fn spec_binop_docv(op: Seq<char>, l: DocV, r: DocV) -> DocV {
    cv(cv(cv(cv(l, DocV::Break { broken: ""@, unbroken: " "@ }), tv(op)), tv(" "@)), r)
}

/// A binding: pattern, ` =`, a breakable space, the value indented, a comma,
/// a line break, the continuation.
pub open spec fn spec_let_docv(p: DocV, v: DocV, t: DocV) -> DocV {
    cv(
        cv(
            cv(
                cv(cv(p, tv(" ="@)), DocV::Break { broken: ""@, unbroken: " "@ }),
                nestv(INDENT as nat, v),
            ),
            tv(","@),
        ),
        cv(DocV::Line, t),
    )
}

/// A cons pair: `[head | tail]`.
pub open spec fn spec_cons_docv(h: DocV, t: DocV) -> DocV {
    cv(cv(tv("["@), cv(cv(h, tv(" | "@)), t)), tv("]"@))
}

/// A constructor: a zero-argument constructor is its snake-case atom; one
/// with arguments is a tuple whose first element is that atom.
pub open spec fn spec_enum_docv(tag: Seq<char>, ds: Seq<DocV>) -> DocV {
    if ds.len() == 0 {
        spec_atom(tag)
    } else {
        spec_tuple(seq![spec_atom(tag)] + ds)
    }
}

/// One case clause: pattern, ` ->`, a breakable space, the body indented and
/// grouped.
pub open spec fn spec_clause_docv(p: DocV, b: DocV) -> DocV {
    cv(
        cv(cv(p, tv(" ->"@)), DocV::Break { broken: ""@, unbroken: " "@ }),
        groupv(nestv(INDENT as nat, b)),
    )
}

/// The separator between case clauses: `;`, a line break, and an optional
/// blank line.
pub open spec fn clause_sep_v() -> DocV {
    cv(cv(tv(";"@), DocV::Line), DocV::Break { broken: "\n"@, unbroken: ""@ })
}

/// A case expression: the subject as its own group, then the clauses
/// indented, then `end`.
pub open spec fn spec_case_docv(subject: DocV, cs: DocV) -> DocV {
    cv(
        cv(
            cv(cv(tv("case "@), groupv(subject)), tv(" of"@)),
            nestv(INDENT as nat, cv(DocV::Line, cs)),
        ),
        cv(DocV::Line, tv("end"@)),
    )
}

// ---------------------------------------------------------------------------
// Pattern translation
// ---------------------------------------------------------------------------

/// The document a pattern translates to. Pattern translation is total.
pub open spec fn spec_pattern(p: Pattern) -> DocV
    decreases p,
{
    match p {
        Pattern::Var { name } => tv(camel_of(name@)),
        Pattern::Int { value } => tv(spec_dec(value as int)),
        Pattern::Float { value } => tv(value@),
        Pattern::Atom { value } => spec_atom(value@),
        Pattern::Str { value } => spec_string(value@),
        Pattern::Tuple { elems } => spec_tuple(spec_patterns(elems@)),
        Pattern::Nil => tv("[]"@),
        Pattern::Cons { head, tail } => spec_cons_docv(spec_pattern(*head), spec_pattern(*tail)),
        Pattern::Enum { name, args } => spec_enum_docv(snake_of(name@), spec_patterns(args@)),
    }
}

/// The documents of a list of patterns, in order.
pub open spec fn spec_patterns(ps: Seq<Pattern>) -> Seq<DocV>
    decreases ps,
{
    if ps.len() == 0 {
        Seq::empty()
    } else {
        spec_patterns(ps.drop_last()).push(spec_pattern(ps.last()))
    }
}

// ---------------------------------------------------------------------------
// Expression translation
// ---------------------------------------------------------------------------

/// The document an expression translates to, or the unsupported construct
/// reached first.
pub open spec fn spec_expr(e: Expr) -> Result<DocV, Unsupported>
    decreases e,
{
    match e {
        Expr::Int { value } => Ok(tv(spec_dec(value as int))),
        Expr::Float { value } => Ok(tv(value@)),
        Expr::Atom { value } => Ok(spec_atom(value@)),
        Expr::Str { value } => Ok(spec_string(value@)),
        Expr::Tuple { elems } => match spec_exprs(elems@) {
            Ok(ds) => Ok(spec_tuple(ds)),
            Err(u) => Err(u),
        },
        Expr::Sequence { first, then } => match (spec_expr(*first), spec_expr(*then)) {
            (Ok(a), Ok(b)) => Ok(spec_seq_docv(a, b)),
            (Err(u), _) => Err(u),
            (_, Err(u)) => Err(u),
        },
        Expr::Var { name, scope } => match scope {
            Scope::Local => Ok(tv(camel_of(name@))),
            Scope::Module => Err(Unsupported::ModuleScopeVariable),
            Scope::Constant { value } => spec_expr(*value),
        },
        Expr::Fun => Err(Unsupported::FunctionLiteral),
        Expr::Nil => Ok(tv("[]"@)),
        Expr::Cons { head, tail } => match (spec_expr(*head), spec_expr(*tail)) {
            (Ok(h), Ok(t)) => Ok(spec_cons_docv(h, t)),
            (Err(u), _) => Err(u),
            (_, Err(u)) => Err(u),
        },
        Expr::Call => Err(Unsupported::FunctionCall),
        Expr::Enum { name, args } => match spec_exprs(args@) {
            Ok(ds) => Ok(spec_enum_docv(snake_of(name@), ds)),
            Err(u) => Err(u),
        },
        Expr::RecordNil => Ok(tv("#{}"@)),
        Expr::RecordCons => Err(Unsupported::RecordConstructor),
        Expr::RecordSelect => Err(Unsupported::RecordAccess),
        Expr::ModuleSelect => Err(Unsupported::ModuleAccess),
        Expr::Case { subject, clauses } => match (spec_expr(*subject), spec_clauses(clauses@)) {
            (Ok(s), Ok(cs)) => Ok(spec_case_docv(s, join_docv(cs, clause_sep_v()))),
            (Err(u), _) => Err(u),
            (_, Err(u)) => Err(u),
        },
        Expr::BinOp { name, left, right } => match (spec_expr(*left), spec_expr(*right)) {
            (Ok(l), Ok(r)) => Ok(spec_binop_docv(spec_op_token(name), l, r)),
            (Err(u), _) => Err(u),
            (_, Err(u)) => Err(u),
        },
        Expr::Let { pattern, value, then } => match (spec_expr(*value), spec_expr(*then)) {
            (Ok(v), Ok(t)) => Ok(spec_let_docv(spec_pattern(pattern), v, t)),
            (Err(u), _) => Err(u),
            (_, Err(u)) => Err(u),
        },
    }
}

/// The documents of a list of expressions, or the first unsupported
/// construct, in order.
pub open spec fn spec_exprs(es: Seq<Expr>) -> Result<Seq<DocV>, Unsupported>
    decreases es,
{
    if es.len() == 0 {
        Ok(Seq::empty())
    } else {
        match spec_exprs(es.drop_last()) {
            Err(u) => Err(u),
            Ok(ds) => match spec_expr(es.last()) {
                Err(u) => Err(u),
                Ok(d) => Ok(ds.push(d)),
            },
        }
    }
}

/// The document of one case clause, or the first unsupported construct in
/// its body.
pub open spec fn spec_clause(c: Clause) -> Result<DocV, Unsupported>
    decreases c,
{
    match spec_expr(c.body) {
        Err(u) => Err(u),
        Ok(b) => Ok(spec_clause_docv(spec_pattern(c.pattern), b)),
    }
}

/// The documents of a list of clauses, or the first unsupported construct,
/// in order.
pub open spec fn spec_clauses(cs: Seq<Clause>) -> Result<Seq<DocV>, Unsupported>
    decreases cs,
{
    if cs.len() == 0 {
        Ok(Seq::empty())
    } else {
        match spec_clauses(cs.drop_last()) {
            Err(u) => Err(u),
            Ok(ds) => match spec_clause(cs.last()) {
                Err(u) => Err(u),
                Ok(d) => Ok(ds.push(d)),
            },
        }
    }
}

// ---------------------------------------------------------------------------
// Relating executable results to the model
// ---------------------------------------------------------------------------

/// The executable result agrees with the model result.
pub open spec fn doc_res_matches(r: Result<Document, Unsupported>, s: Result<DocV, Unsupported>) -> bool {
    match (r, s) {
        (Ok(d), Ok(v)) => dv(d) == v,
        (Err(a), Err(b)) => a == b,
        _ => false,
    }
}

/// The executable results agree with the model results.
pub open spec fn docs_res_matches(
    r: Result<Vec<Document>, Unsupported>,
    s: Result<Seq<DocV>, Unsupported>,
) -> bool {
    match (r, s) {
        (Ok(d), Ok(v)) => dvs(d@) == v,
        (Err(a), Err(b)) => a == b,
        _ => false,
    }
}

/// An error at one position, after a clean prefix, is the error of the
/// whole list.
proof fn lemma_exprs_err(es: Seq<Expr>, i: int, u: Unsupported)
    requires
        0 <= i < es.len(),
        spec_exprs(es.take(i)) is Ok,
        spec_expr(es[i]) == Err::<DocV, Unsupported>(u),
    ensures
        spec_exprs(es) == Err::<Seq<DocV>, Unsupported>(u),
    decreases es.len(),
{
    if i == es.len() - 1 {
        assert(es.take(i) =~= es.drop_last());
        assert(es.last() == es[i]);
    } else {
        assert(es.drop_last().take(i) =~= es.take(i));
        assert(es.drop_last()[i] == es[i]);
        lemma_exprs_err(es.drop_last(), i, u);
    }
}

/// An error at one position, after a clean prefix, is the error of the
/// whole clause list.
proof fn lemma_clauses_err(cs: Seq<Clause>, i: int, u: Unsupported)
    requires
        0 <= i < cs.len(),
        spec_clauses(cs.take(i)) is Ok,
        spec_clause(cs[i]) == Err::<DocV, Unsupported>(u),
    ensures
        spec_clauses(cs) == Err::<Seq<DocV>, Unsupported>(u),
    decreases cs.len(),
{
    if i == cs.len() - 1 {
        assert(cs.take(i) =~= cs.drop_last());
        assert(cs.last() == cs[i]);
    } else {
        assert(cs.drop_last().take(i) =~= cs.take(i));
        assert(cs.drop_last()[i] == cs[i]);
        lemma_clauses_err(cs.drop_last(), i, u);
    }
}

// ---------------------------------------------------------------------------
// Executable translators
// ---------------------------------------------------------------------------

/// A copy of a string, for building an owned document piece.
fn copy_string(s: &String) -> (r: String)
    ensures
        r@ == s@,
{
    String::from_str(s.as_str())
}

/// An atom literal document.
fn atom(value: String) -> (r: Document)
    ensures
        dv(r) == spec_atom(value@),
{
    text(value).surround("'", "'")
}

/// A string literal document, as a binary literal.
fn string(value: String) -> (r: Document)
    ensures
        dv(r) == spec_string(value@),
{
    text(value).surround("<<\"", "\">>")
}

/// A tuple document over already-translated element documents.
fn tuple(docs: Vec<Document>) -> (r: Document)
    ensures
        dv(r) == spec_tuple(dvs(docs@)),
{
    join(docs, delim(",")).nest_current().surround("{", "}").group()
}

/// A cons document over already-translated head and tail documents.
fn cons(head: Document, tail: Document) -> (r: Document)
    ensures
        dv(r) == spec_cons_docv(dv(head), dv(tail)),
{
    head.append(text_str(" | ")).append(tail).surround("[", "]")
}

/// The target token of a binary operator.
fn op_token(op: &BinOp) -> (r: &'static str)
    ensures
        r@ == spec_op_token(*op),
{
    match op {
        BinOp::Pipe => "|>",
        BinOp::Lt => "<",
        BinOp::LtEq => "=<",
        BinOp::Eq => "=:=",
        BinOp::GtEq => ">=",
        BinOp::Gt => ">",
        BinOp::AddInt => "+",
        BinOp::AddFloat => "+",
        BinOp::SubInt => "-",
        BinOp::SubFloat => "-",
        BinOp::MultInt => "*",
        BinOp::MultFloat => "*",
        BinOp::DivInt => "div",
        BinOp::DivFloat => "/",
    }
}

/// A constructor document: the snake-case tag atom, alone or as the first
/// tuple element before the argument documents.
fn enum_(name: &String, arg_docs: Vec<Document>) -> (r: Document)
    ensures
        dv(r) == spec_enum_docv(snake_of(name@), dvs(arg_docs@)),
{
    let tag = atom(to_snake(name.as_str()));
    if arg_docs.len() == 0 {
        proof {
            assert(dvs(arg_docs@).len() == 0);
        }
        tag
    } else {
        let ghost old_docs = arg_docs@;
        let mut docs = arg_docs;
        docs.insert(0, tag);
        proof {
            assert(dvs(docs@) =~= seq![spec_atom(snake_of(name@))] + dvs(old_docs));
        }
        tuple(docs)
    }
}

/// The document of a pattern.
pub fn pattern(p: &Pattern) -> (r: Document)
    ensures
        dv(r) == spec_pattern(*p),
    decreases *p,
{
    match p {
        Pattern::Var { name } => text(to_camel(name.as_str())),
        Pattern::Int { value } => text(int_dec(*value)),
        Pattern::Float { value } => text(copy_string(value)),
        Pattern::Atom { value } => atom(copy_string(value)),
        Pattern::Str { value } => string(copy_string(value)),
        Pattern::Tuple { elems } => tuple(patterns_docs(elems)),
        Pattern::Nil => text_str("[]"),
        Pattern::Cons { head, tail } => cons(pattern(head), pattern(tail)),
        Pattern::Enum { name, args } => enum_(name, patterns_docs(args)),
    }
}

/// The documents of a list of patterns, in order.
fn patterns_docs(ps: &Vec<Pattern>) -> (r: Vec<Document>)
    ensures
        dvs(r@) == spec_patterns(ps@),
    decreases ps@,
{
    let mut out: Vec<Document> = Vec::new();
    let mut i: usize = 0;
    proof {
        assert(ps@.take(0) =~= Seq::<Pattern>::empty());
        assert(dvs(out@) =~= spec_patterns(ps@.take(0)));
    }
    while i < ps.len()
        invariant
            i <= ps@.len(),
            dvs(out@) == spec_patterns(ps@.take(i as int)),
        decreases ps@.len() - i,
    {
        let d = pattern(&ps[i]);
        out.push(d);
        proof {
            assert(ps@.take(i + 1).drop_last() =~= ps@.take(i as int));
            assert(ps@.take(i + 1).last() == ps@[i as int]);
            assert(dvs(out@) =~= spec_patterns(ps@.take(i as int)).push(dv(d)));
        }
        i = i + 1;
    }
    proof {
        assert(ps@.take(ps@.len() as int) =~= ps@);
    }
    out
}

/// The document of an expression, or the unsupported construct reached
/// first.
#[verifier::rlimit(60)]
#[verifier::spinoff_prover]
pub fn expr(e: &Expr) -> (r: Result<Document, Unsupported>)
    ensures
        doc_res_matches(r, spec_expr(*e)),
    decreases *e,
{
    match e {
        Expr::Int { value } => Ok(text(int_dec(*value))),
        Expr::Float { value } => Ok(text(copy_string(value))),
        Expr::Atom { value } => Ok(atom(copy_string(value))),
        Expr::Str { value } => Ok(string(copy_string(value))),
        Expr::Tuple { elems } => match exprs_docs(elems) {
            Ok(ds) => Ok(tuple(ds)),
            Err(u) => Err(u),
        },
        Expr::Sequence { first, then } => {
            let a = match expr(first) {
                Ok(a) => a,
                Err(u) => return Err(u),
            };
            let b = match expr(then) {
                Ok(b) => b,
                Err(u) => return Err(u),
            };
            Ok(a.append(text_str(",")).append(line()).append(b))
        },
        Expr::Var { name, scope } => match scope {
            Scope::Local => Ok(text(to_camel(name.as_str()))),
            Scope::Module => Err(Unsupported::ModuleScopeVariable),
            Scope::Constant { value } => expr(value),
        },
        Expr::Fun => Err(Unsupported::FunctionLiteral),
        Expr::Nil => Ok(text_str("[]")),
        Expr::Cons { head, tail } => {
            let h = match expr(head) {
                Ok(h) => h,
                Err(u) => return Err(u),
            };
            let t = match expr(tail) {
                Ok(t) => t,
                Err(u) => return Err(u),
            };
            Ok(cons(h, t))
        },
        Expr::Call => Err(Unsupported::FunctionCall),
        Expr::Enum { name, args } => match exprs_docs(args) {
            Ok(ds) => Ok(enum_(name, ds)),
            Err(u) => Err(u),
        },
        Expr::RecordNil => Ok(text_str("#{}")),
        Expr::RecordCons => Err(Unsupported::RecordConstructor),
        Expr::RecordSelect => Err(Unsupported::RecordAccess),
        Expr::ModuleSelect => Err(Unsupported::ModuleAccess),
        Expr::Case { subject, clauses } => {
            let s = match expr(subject) {
                Ok(s) => s,
                Err(u) => return Err(u),
            };
            let cds = match clauses_docs(clauses) {
                Ok(cds) => cds,
                Err(u) => return Err(u),
            };
            let sep = text_str(";").append(line()).append(break_doc());
            let cs = join(cds, sep);
            Ok(
                text_str("case ").append(s.group()).append(text_str(" of")).append(
                    line().append(cs).nest(INDENT),
                ).append(line().append(text_str("end"))),
            )
        },
        Expr::BinOp { name, left, right } => {
            let l = match expr(left) {
                Ok(l) => l,
                Err(u) => return Err(u),
            };
            let r = match expr(right) {
                Ok(r) => r,
                Err(u) => return Err(u),
            };
            Ok(
                l.append(crate::doc::break_("", " ")).append(text_str(op_token(name))).append(
                    text_str(" "),
                ).append(r),
            )
        },
        Expr::Let { pattern: p, value, then } => {
            let v = match expr(value) {
                Ok(v) => v,
                Err(u) => return Err(u),
            };
            let t = match expr(then) {
                Ok(t) => t,
                Err(u) => return Err(u),
            };
            let pd = pattern(p);
            Ok(
                pd.append(text_str(" =")).append(crate::doc::break_("", " ")).append(
                    v.nest(INDENT),
                ).append(text_str(",")).append(line().append(t)),
            )
        },
    }
}

/// The clause separator document.
fn break_doc() -> (r: Document)
    ensures
        dv(r) == (DocV::Break { broken: "\n"@, unbroken: ""@ }),
{
    crate::doc::break_("\n", "")
}

/// The documents of a list of expressions, or the first unsupported
/// construct.
fn exprs_docs(es: &Vec<Expr>) -> (r: Result<Vec<Document>, Unsupported>)
    ensures
        docs_res_matches(r, spec_exprs(es@)),
    decreases es@,
{
    let mut out: Vec<Document> = Vec::new();
    let mut i: usize = 0;
    proof {
        assert(es@.take(0) =~= Seq::<Expr>::empty());
        assert(dvs(out@) =~= Seq::<DocV>::empty());
    }
    while i < es.len()
        invariant
            i <= es@.len(),
            spec_exprs(es@.take(i as int)) == Ok::<Seq<DocV>, Unsupported>(dvs(out@)),
        decreases es@.len() - i,
    {
        let d = match expr(&es[i]) {
            Ok(d) => d,
            Err(u) => {
                proof {
                    lemma_exprs_err(es@, i as int, u);
                }
                return Err(u);
            },
        };
        out.push(d);
        proof {
            assert(es@.take(i + 1).drop_last() =~= es@.take(i as int));
            assert(es@.take(i + 1).last() == es@[i as int]);
            assert(dvs(out@) =~= spec_exprs(es@.take(i as int))->Ok_0.push(dv(d)));
        }
        i = i + 1;
    }
    proof {
        assert(es@.take(es@.len() as int) =~= es@);
    }
    Ok(out)
}

/// The document of one clause, or the first unsupported construct in its
/// body.
fn clause(c: &Clause) -> (r: Result<Document, Unsupported>)
    ensures
        doc_res_matches(r, spec_clause(*c)),
    decreases *c,
{
    let b = match expr(&c.body) {
        Ok(b) => b,
        Err(u) => return Err(u),
    };
    let pd = pattern(&c.pattern);
    Ok(pd.append(text_str(" ->")).append(crate::doc::break_("", " ")).append(b.nest(INDENT).group()))
}

/// The documents of a list of clauses, or the first unsupported construct.
fn clauses_docs(cs: &Vec<Clause>) -> (r: Result<Vec<Document>, Unsupported>)
    ensures
        docs_res_matches(r, spec_clauses(cs@)),
    decreases cs@,
{
    let mut out: Vec<Document> = Vec::new();
    let mut i: usize = 0;
    proof {
        assert(cs@.take(0) =~= Seq::<Clause>::empty());
        assert(dvs(out@) =~= Seq::<DocV>::empty());
    }
    while i < cs.len()
        invariant
            i <= cs@.len(),
            spec_clauses(cs@.take(i as int)) == Ok::<Seq<DocV>, Unsupported>(dvs(out@)),
        decreases cs@.len() - i,
    {
        let d = match clause(&cs[i]) {
            Ok(d) => d,
            Err(u) => {
                proof {
                    lemma_clauses_err(cs@, i as int, u);
                }
                return Err(u);
            },
        };
        out.push(d);
        proof {
            assert(cs@.take(i + 1).drop_last() =~= cs@.take(i as int));
            assert(cs@.take(i + 1).last() == cs@[i as int]);
            assert(dvs(out@) =~= spec_clauses(cs@.take(i as int))->Ok_0.push(dv(d)));
        }
        i = i + 1;
    }
    proof {
        assert(cs@.take(cs@.len() as int) =~= cs@);
    }
    Ok(out)
}

// ---------------------------------------------------------------------------
// Statement and module emission
// ---------------------------------------------------------------------------

/// The text of an export declaration.
pub open spec fn export_chars(name: Seq<char>, arity: nat) -> Seq<char> {
    "-export(["@ + name + "/"@ + spec_udec(arity) + "])."@
}

/// The export declaration document: the export line and a line break when
/// public, and the empty document otherwise.
pub open spec fn spec_export(public: bool, name: Seq<char>, arity: nat) -> DocV {
    if public {
        cv(tv(export_chars(name, arity)), DocV::Line)
    } else {
        DocV::Nil
    }
}

/// The argument documents of a function head: each argument name in
/// variable case.
pub open spec fn spec_args(args: Seq<Arg>) -> Seq<DocV>
    decreases args,
{
    if args.len() == 0 {
        Seq::empty()
    } else {
        spec_args(args.drop_last()).push(tv(camel_of(args.last().name@)))
    }
}

/// A function head's argument list: the arguments joined by commas, aligned
/// under the opening parenthesis, as a group.
pub open spec fn spec_args_docv(args: Seq<Arg>) -> DocV {
    groupv(cv(cv(tv("("@), ncv(join_docv(spec_args(args), delim_v()))), tv(")"@)))
}

/// A function definition: the export declaration when public, a line break,
/// the head, and the indented body closed by a period.
pub open spec fn spec_mod_fun(public: bool, name: Seq<char>, args: Seq<Arg>, body: Expr) -> Result<
    DocV,
    Unsupported,
> {
    match spec_expr(body) {
        Err(u) => Err(u),
        Ok(b) => Ok(
            cv(
                cv(
                    cv(
                        cv(
                            cv(cv(spec_export(public, name, args.len()), DocV::Line), tv(name)),
                            spec_args_docv(args),
                        ),
                        tv(" ->"@),
                    ),
                    nestv(INDENT as nat, cv(DocV::Line, b)),
                ),
                cv(tv("."@), DocV::Line),
            ),
        ),
    }
}

/// A test: the body wrapped in a conditional-compilation guard, under the
/// test's name with a `_test` suffix, never exported.
pub open spec fn spec_test(name: Seq<char>, body: Expr) -> Result<DocV, Unsupported> {
    match spec_expr(body) {
        Err(u) => Err(u),
        Ok(b) => Ok(
            cv(
                cv(
                    cv(
                        cv(
                            cv(
                                cv(cv(cv(DocV::Line, tv("-ifdef(TEST)."@)), DocV::Line), tv(name)),
                                tv("_test() ->"@),
                            ),
                            nestv(INDENT as nat, cv(DocV::Line, b)),
                        ),
                        cv(tv("."@), DocV::Line),
                    ),
                    tv("-endif."@),
                ),
                DocV::Line,
            ),
        ),
    }
}

/// The character of the synthetic parameter at one position: sequential
/// code points from the first upper-case letter, wrapping as a byte.
pub open spec fn synth_char(i: nat) -> char {
    (((65 + i % 256) % 256) as u8) as char
}

/// The comma-separated synthetic parameter names of a foreign wrapper.
pub open spec fn params_chars(k: nat) -> Seq<char>
    decreases k,
{
    if k == 0 {
        Seq::empty()
    } else if k == 1 {
        seq![synth_char(0)]
    } else {
        params_chars((k - 1) as nat) + ", "@ + seq![synth_char((k - 1) as nat)]
    }
}

/// A foreign-function wrapper: a head with synthetic parameters whose body
/// calls the foreign function with those same parameters.
pub open spec fn spec_external_fun(
    public: bool,
    name: Seq<char>,
    foreign_module: Seq<char>,
    foreign_name: Seq<char>,
    arity: nat,
) -> DocV {
    cv(
        cv(
            cv(
                cv(DocV::Line, spec_export(public, name, arity)),
                tv(name + "("@ + params_chars(arity) + ") ->"@),
            ),
            nestv(
                INDENT as nat,
                cv(
                    DocV::Line,
                    tv(
                        foreign_module + ":"@ + foreign_name + "("@ + params_chars(arity)
                            + ")."@,
                    ),
                ),
            ),
        ),
        DocV::Line,
    )
}

/// The document a statement translates to: erased kinds give the empty
/// document; functions and tests may reach an unsupported construct.
pub open spec fn spec_statement(s: Statement) -> Result<DocV, Unsupported> {
    match s {
        Statement::Function { public, name, args, body } => spec_mod_fun(public, name@, args@, body),
        Statement::ExternalFunction { public, name, foreign_module, foreign_name, arity } => Ok(
            spec_external_fun(public, name@, foreign_module@, foreign_name@, arity as nat),
        ),
        Statement::Test { name, body } => spec_test(name@, body),
        Statement::TypeDefinition { .. } => Ok(DocV::Nil),
        Statement::Import { .. } => Ok(DocV::Nil),
        Statement::ExternalType { .. } => Ok(DocV::Nil),
    }
}

/// The documents of a module's statements, or the first unsupported
/// construct, in order.
pub open spec fn spec_statements(ss: Seq<Statement>) -> Result<Seq<DocV>, Unsupported>
    decreases ss,
{
    if ss.len() == 0 {
        Ok(Seq::empty())
    } else {
        match spec_statements(ss.drop_last()) {
            Err(u) => Err(u),
            Ok(ds) => match spec_statement(ss.last()) {
                Err(u) => Err(u),
                Ok(d) => Ok(ds.push(d)),
            },
        }
    }
}

/// The document of a whole module: the module header, a line break, and the
/// statement documents in order.
pub open spec fn spec_module_docv(name: Seq<char>, ds: Seq<DocV>) -> DocV {
    cv(cv(tv("-module("@ + name + ")."@), DocV::Line), concat_docv(ds))
}

/// The rendering of a module at the fixed width, or the first unsupported
/// construct in it.
pub open spec fn spec_module(m: Module) -> Result<Seq<char>, Unsupported> {
    match spec_statements(m.statements@) {
        Err(u) => Err(u),
        Ok(ds) => Ok(spec_format(spec_module_docv(m.name@, ds), crate::RENDER_WIDTH as nat)),
    }
}

/// An error at one position, after a clean prefix, is the error of the
/// whole statement list.
proof fn lemma_statements_err(ss: Seq<Statement>, i: int, u: Unsupported)
    requires
        0 <= i < ss.len(),
        spec_statements(ss.take(i)) is Ok,
        spec_statement(ss[i]) == Err::<DocV, Unsupported>(u),
    ensures
        spec_statements(ss) == Err::<Seq<DocV>, Unsupported>(u),
    decreases ss.len(),
{
    if i == ss.len() - 1 {
        assert(ss.take(i) =~= ss.drop_last());
        assert(ss.last() == ss[i]);
    } else {
        assert(ss.drop_last().take(i) =~= ss.take(i));
        assert(ss.drop_last()[i] == ss[i]);
        lemma_statements_err(ss.drop_last(), i, u);
    }
}

/// The export declaration document for a function of the given visibility,
/// name and arity.
pub fn export(public: bool, name: &String, arity: usize) -> (r: Document)
    ensures
        dv(r) == spec_export(public, name@, arity as nat),
{
    if public {
        let mut s = String::from_str("-export([");
        s.append(name.as_str());
        s.append("/");
        let a = udec_usize(arity);
        s.append(a.as_str());
        s.append("]).");
        text(s).append(line())
    } else {
        nil()
    }
}

/// The argument-list document of a function head.
fn args_doc(args: &Vec<Arg>) -> (r: Document)
    ensures
        dv(r) == spec_args_docv(args@),
{
    let mut docs: Vec<Document> = Vec::new();
    let mut i: usize = 0;
    proof {
        assert(args@.take(0) =~= Seq::<Arg>::empty());
        assert(dvs(docs@) =~= Seq::<DocV>::empty());
    }
    while i < args.len()
        invariant
            i <= args@.len(),
            dvs(docs@) == spec_args(args@.take(i as int)),
        decreases args@.len() - i,
    {
        let d = text(to_camel(args[i].name.as_str()));
        docs.push(d);
        proof {
            assert(args@.take(i + 1).drop_last() =~= args@.take(i as int));
            assert(args@.take(i + 1).last() == args@[i as int]);
            assert(dvs(docs@) =~= spec_args(args@.take(i as int)).push(dv(d)));
        }
        i = i + 1;
    }
    proof {
        assert(args@.take(args@.len() as int) =~= args@);
    }
    join(docs, delim(",")).nest_current().surround("(", ")").group()
}

/// The document of a function definition.
fn mod_fun(public: bool, name: &String, args: &Vec<Arg>, body: &Expr) -> (r: Result<
    Document,
    Unsupported,
>)
    ensures
        doc_res_matches(r, spec_mod_fun(public, name@, args@, *body)),
{
    let b = match expr(body) {
        Ok(b) => b,
        Err(u) => return Err(u),
    };
    let ad = args_doc(args);
    Ok(
        export(public, name, args.len()).append(line()).append(text(copy_string(name))).append(
            ad,
        ).append(text_str(" ->")).append(line().append(b).nest(INDENT)).append(
            text_str(".").append(line()),
        ),
    )
}

/// The document of a test definition.
fn test(name: &String, body: &Expr) -> (r: Result<Document, Unsupported>)
    ensures
        doc_res_matches(r, spec_test(name@, *body)),
{
    let b = match expr(body) {
        Ok(b) => b,
        Err(u) => return Err(u),
    };
    Ok(
        line().append(text_str("-ifdef(TEST).")).append(line()).append(text(copy_string(name)))
            .append(text_str("_test() ->")).append(line().append(b).nest(INDENT)).append(
            text_str(".").append(line()),
        ).append(text_str("-endif.")).append(line()),
    )
}

/// The comma-separated synthetic parameter names for a foreign wrapper of
/// the given arity.
fn params_string(arity: usize) -> (r: String)
    ensures
        r@ == params_chars(arity as nat),
{
    let mut s = String::from_str("");
    let mut i: usize = 0;
    proof {
        reveal_strlit("");
        assert(s@ =~= params_chars(0));
    }
    while i < arity
        invariant
            i <= arity,
            s@ == params_chars(i as nat),
        decreases arity - i,
    {
        let ghost before = s@;
        if i > 0 {
            s.append(", ");
        }
        let code: u8 = ((65 + (i % 256)) % 256) as u8;
        s.push(code as char);
        proof {
            reveal_strlit(", ");
            assert(code as char == synth_char(i as nat));
            if i == 0 {
                assert(params_chars(1) == seq![synth_char(0)]);
                assert(s@ =~= params_chars(1));
            } else {
                assert(params_chars((i + 1) as nat) == params_chars(i as nat) + ", "@ + seq![
                    synth_char(i as nat),
                ]);
                assert(s@ =~= (before + ", "@).push(code as char));
                assert((before + ", "@).push(code as char) =~= before + ", "@ + seq![
                    synth_char(i as nat),
                ]);
            }
        }
        i = i + 1;
    }
    s
}

/// The document of a foreign-function wrapper.
fn external_fun(
    public: bool,
    name: &String,
    foreign_module: &String,
    foreign_name: &String,
    arity: usize,
) -> (r: Document)
    ensures
        dv(r) == spec_external_fun(public, name@, foreign_module@, foreign_name@, arity as nat),
{
    let params = params_string(arity);
    let mut header = String::from_str(name.as_str());
    header.append("(");
    header.append(params.as_str());
    header.append(") ->");
    let mut call = String::from_str(foreign_module.as_str());
    call.append(":");
    call.append(foreign_name.as_str());
    call.append("(");
    call.append(params.as_str());
    call.append(").");
    line().append(export(public, name, arity)).append(text(header)).append(
        line().append(text(call)).nest(INDENT),
    ).append(line())
}

/// The document of one statement: the empty document for erased kinds.
pub fn statement(s: &Statement) -> (r: Result<Document, Unsupported>)
    ensures
        doc_res_matches(r, spec_statement(*s)),
{
    match s {
        Statement::Function { public, name, args, body } => mod_fun(*public, name, args, body),
        Statement::ExternalFunction { public, name, foreign_module, foreign_name, arity } => Ok(
            external_fun(*public, name, foreign_module, foreign_name, *arity),
        ),
        Statement::Test { name, body } => test(name, body),
        Statement::TypeDefinition { .. } => Ok(nil()),
        Statement::Import { .. } => Ok(nil()),
        Statement::ExternalType { .. } => Ok(nil()),
    }
}

/// The documents of a module's statements, or the first unsupported
/// construct.
fn statements_docs(ss: &Vec<Statement>) -> (r: Result<Vec<Document>, Unsupported>)
    ensures
        docs_res_matches(r, spec_statements(ss@)),
{
    let mut out: Vec<Document> = Vec::new();
    let mut i: usize = 0;
    proof {
        assert(ss@.take(0) =~= Seq::<Statement>::empty());
        assert(dvs(out@) =~= Seq::<DocV>::empty());
    }
    while i < ss.len()
        invariant
            i <= ss@.len(),
            spec_statements(ss@.take(i as int)) == Ok::<Seq<DocV>, Unsupported>(dvs(out@)),
        decreases ss@.len() - i,
    {
        let d = match statement(&ss[i]) {
            Ok(d) => d,
            Err(u) => {
                proof {
                    lemma_statements_err(ss@, i as int, u);
                }
                return Err(u);
            },
        };
        out.push(d);
        proof {
            assert(ss@.take(i + 1).drop_last() =~= ss@.take(i as int));
            assert(ss@.take(i + 1).last() == ss@[i as int]);
            assert(dvs(out@) =~= spec_statements(ss@.take(i as int))->Ok_0.push(dv(d)));
        }
        i = i + 1;
    }
    proof {
        assert(ss@.take(ss@.len() as int) =~= ss@);
    }
    Ok(out)
}

/// Renders a whole module: the module header, then each statement's output
/// in original order, laid out at the fixed width. Fails fast, naming the
/// construct, if the module holds one the generator does not support yet.
pub fn module(m: Module) -> (r: Result<String, Unsupported>)
    ensures
        ({
            match (r, spec_module(m)) {
                (Ok(out), Ok(s)) => out@ == s,
                (Err(a), Err(b)) => a == b,
                _ => false,
            }
        }),
{
    let docs = match statements_docs(&m.statements) {
        Ok(docs) => docs,
        Err(u) => return Err(u),
    };
    let mut header = String::from_str("-module(");
    header.append(m.name.as_str());
    header.append(").");
    let d = text(header).append(line()).append(concat(docs));
    Ok(d.format(crate::RENDER_WIDTH))
}

} // verus!
