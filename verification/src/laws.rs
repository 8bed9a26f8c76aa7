use vstd::prelude::*;

use crate::ast::{Arg, Expr, Module, Pattern, Scope, Statement};
use crate::codegen::{
    clause_sep_v, cv, export_chars, spec_atom, spec_enum_docv, spec_expr, spec_exprs,
    spec_module, spec_pattern, spec_patterns, spec_statement, spec_statements, spec_tuple, tv,
    Unsupported,
};
use crate::mangle::snake_of;
use crate::doc::{add_sat, concat_docv, intersperse_docv, join_docv, newline, spaces, spec_fmt, DocV};

verus! {

// ---------------------------------------------------------------------------
// Constant substitution
// ---------------------------------------------------------------------------

/// A variable reference held as a compile-time constant renders exactly as
/// the held value itself: no residual variable name appears in the output.
pub proof fn lemma_constant_substitution(name: String, value: Expr)
    ensures
        spec_expr(Expr::Var { name, scope: Scope::Constant { value: Box::new(value) } })
            == spec_expr(value),
{
}

// ---------------------------------------------------------------------------
// Tagged-tuple symmetry
// ---------------------------------------------------------------------------

/// The tagged-tuple encoding, shared verbatim by the two translators: a
/// constructor expression and a constructor pattern each translate to
/// `spec_enum_docv` of the snake-case tag of their name over their argument
/// documents, so the atom spelling and arity conventions are identical on
/// both sides.
pub proof fn lemma_tagged_tuple_encoding(name: String, eargs: Vec<Expr>, pargs: Vec<Pattern>)
    ensures
        spec_exprs(eargs@) is Ok ==> spec_expr(Expr::Enum { name, args: eargs })
            == Ok::<DocV, Unsupported>(
            spec_enum_docv(snake_of(name@), spec_exprs(eargs@)->Ok_0),
        ),
        spec_pattern(Pattern::Enum { name, args: pargs }) == spec_enum_docv(
            snake_of(name@),
            spec_patterns(pargs@),
        ),
{
}

/// The shape of the tagged-tuple encoding: a constructor without arguments
/// is exactly its tag atom; one with arguments is a tuple whose first
/// element is that atom, followed by the argument documents in order, so
/// the tuple holds one element more than the argument count.
pub proof fn lemma_tagged_tuple_shape(tag: Seq<char>, ds: Seq<DocV>)
    ensures
        ds.len() == 0 ==> spec_enum_docv(tag, ds) == spec_atom(tag),
        ds.len() > 0 ==> spec_enum_docv(tag, ds) == spec_tuple(seq![spec_atom(tag)] + ds),
        (seq![spec_atom(tag)] + ds).len() == ds.len() + 1,
        forall|i: int| 0 <= i < ds.len() ==> (seq![spec_atom(tag)] + ds)[i + 1] == ds[i],
        (seq![spec_atom(tag)] + ds)[0] == spec_atom(tag),
{
}

/// A sum-type constructor translated as an expression and the constructor
/// pattern of the same name agree on the tag atom's spelling and on arity:
/// with equal argument documents the two documents are equal.
pub proof fn lemma_tagged_tuple_symmetry(name: String, eargs: Vec<Expr>, pargs: Vec<Pattern>)
    requires
        spec_exprs(eargs@) is Ok,
        spec_exprs(eargs@)->Ok_0 == spec_patterns(pargs@),
    ensures
        spec_expr(Expr::Enum { name, args: eargs }) == Ok::<DocV, Unsupported>(
            spec_pattern(Pattern::Enum { name, args: pargs }),
        ),
{
}

// ---------------------------------------------------------------------------
// Clause ordering
// ---------------------------------------------------------------------------

/// The text of the separator between two rendered clauses: `;`, a line
/// break onto the current indentation, and a blank line when broken.
pub open spec fn clause_sep_chars(indent: nat, flat: bool) -> Seq<char> {
    ";"@ + newline() + spaces(indent) + (
    if flat {
        Seq::<char>::empty()
    } else {
        "\n"@ + newline() + spaces(indent)
    })
}

/// The rendering of a clause list: each clause in input order, the
/// separator between neighbours, and none after the last.
pub open spec fn clauses_render(
    cds: Seq<DocV>,
    indent: nat,
    flat: bool,
    width: nat,
    limit: nat,
) -> (Seq<char>, nat)
    decreases cds.len(),
{
    if cds.len() == 0 {
        (Seq::empty(), width)
    } else if cds.len() == 1 {
        spec_fmt(cds[0], indent, flat, width, limit)
    } else {
        let first = spec_fmt(cds[0], indent, flat, width, limit);
        let rest = clauses_render(cds.drop_first(), indent, flat, indent, limit);
        (first.0 + clause_sep_chars(indent, flat) + rest.0, rest.1)
    }
}

/// Case clauses render in exactly their input order, separated by `;` and
/// a line break, with no separator after the final clause.
pub proof fn lemma_clause_ordering(cds: Seq<DocV>, indent: nat, flat: bool, width: nat, limit: nat)
    requires
        indent <= usize::MAX,
    ensures
        spec_fmt(join_docv(cds, clause_sep_v()), indent, flat, width, limit) == clauses_render(
            cds,
            indent,
            flat,
            width,
            limit,
        ),
    decreases cds.len(),
{
    reveal_strlit("");
    reveal_strlit(";");
    reveal_strlit("\n");
    let sep = clause_sep_v();
    if cds.len() == 0 {
        assert(intersperse_docv(cds, sep) =~= Seq::<DocV>::empty());
        assert(join_docv(cds, sep) == DocV::Nil);
    } else if cds.len() == 1 {
        assert(intersperse_docv(cds, sep) == cds);
        assert(concat_docv(cds) == DocV::Cons(Box::new(cds[0]), Box::new(concat_docv(cds.drop_first()))));
        assert(cds.drop_first() =~= Seq::<DocV>::empty());
        assert(concat_docv(cds.drop_first()) == DocV::Nil);
        assert(join_docv(cds, sep) == DocV::Cons(Box::new(cds[0]), Box::new(DocV::Nil)));
        let f = spec_fmt(cds[0], indent, flat, width, limit);
        let fnil = spec_fmt(DocV::Nil, indent, flat, f.1, limit);
        assert(fnil == (Seq::<char>::empty(), f.1));
        let whole = spec_fmt(join_docv(cds, sep), indent, flat, width, limit);
        assert(whole == (f.0 + fnil.0, fnil.1));
        assert(whole.0 =~= f.0);
        assert(whole == clauses_render(cds, indent, flat, width, limit));
    } else {
        let rest_i = intersperse_docv(cds.drop_first(), sep);
        assert(intersperse_docv(cds, sep) == seq![cds[0], sep] + rest_i);
        crate::doc::lemma_concat_two_pub(cds[0], sep, rest_i);
        let f = spec_fmt(cds[0], indent, flat, width, limit);
        // The separator renders as `;`, a newline and the indentation, and
        // leaves the column at the indentation.
        let fs = spec_fmt(sep, indent, flat, f.1, limit);
        assert(""@.len() == 0);
        let semi_line = cv(tv(";"@), DocV::Line);
        let br = DocV::Break { broken: "\n"@, unbroken: ""@ };
        assert(sep == cv(semi_line, br));
        let fi = spec_fmt(semi_line, indent, flat, f.1, limit);
        assert(tv(";"@) == DocV::Text(";"@));
        let ft = spec_fmt(tv(";"@), indent, flat, f.1, limit);
        assert(ft == (";"@, crate::doc::add_sat(f.1, ";"@.len())));
        let fl = spec_fmt(DocV::Line, indent, flat, ft.1, limit);
        assert(fl == (newline() + spaces(indent), indent));
        assert(fi == (ft.0 + fl.0, fl.1));
        assert(fi.0 == ";"@ + (newline() + spaces(indent)));
        assert(fi.1 == indent);
        let fb = spec_fmt(br, indent, flat, indent, limit);
        if flat {
            assert(fb.0 == ""@);
            assert(fb.1 == crate::doc::add_sat(indent, 0));
            assert(fb.1 == indent);
        } else {
            assert(fb.0 == "\n"@ + newline() + spaces(indent));
            assert(fb.1 == indent);
        }
        assert(fs == (fi.0 + fb.0, fb.1));
        assert(fs.1 == indent);
        lemma_clause_ordering(cds.drop_first(), indent, flat, indent, limit);
        let fr = spec_fmt(join_docv(cds.drop_first(), sep), indent, flat, indent, limit);
        assert(fr == clauses_render(cds.drop_first(), indent, flat, indent, limit));
        assert(fs.0 =~= clause_sep_chars(indent, flat));
        let inner2 = DocV::Cons(Box::new(sep), Box::new(concat_docv(rest_i)));
        assert(concat_docv(rest_i) == join_docv(cds.drop_first(), sep));
        let f2 = spec_fmt(inner2, indent, flat, f.1, limit);
        assert(f2 == (fs.0 + fr.0, fr.1));
        let whole = spec_fmt(join_docv(cds, sep), indent, flat, width, limit);
        assert(join_docv(cds, sep) == DocV::Cons(Box::new(cds[0]), Box::new(inner2)));
        assert(whole == (f.0 + f2.0, f2.1));
        assert(clauses_render(cds, indent, flat, width, limit) == (
            f.0 + clause_sep_chars(indent, flat) + fr.0,
            fr.1,
        ));
        assert(whole.0 =~= f.0 + clause_sep_chars(indent, flat) + fr.0);
        assert(whole.1 == fr.1);
        assert(whole == clauses_render(cds, indent, flat, width, limit));
    }
}

// ---------------------------------------------------------------------------
// Visibility
// ---------------------------------------------------------------------------

/// The rendering of two documents in sequence: the first, then the second
/// starting at the column the first reached.
pub proof fn lemma_fmt_cons(a: DocV, b: DocV, indent: nat, flat: bool, w: nat, limit: nat)
    ensures
        spec_fmt(cv(a, b), indent, flat, w, limit) == ({
            let fa = spec_fmt(a, indent, flat, w, limit);
            let fb = spec_fmt(b, indent, flat, fa.1, limit);
            (fa.0 + fb.0, fb.1)
        }),
{
}

/// A function with `public = true` renders as exactly one export line
/// naming it with its arity, a newline, and then precisely what the same
/// function with `public = false` renders as; a private function emits no
/// export line.
pub proof fn lemma_visibility(name: String, args: Vec<Arg>, body: Expr, w: nat, limit: nat)
    requires
        spec_expr(body) is Ok,
    ensures
        spec_statement(Statement::Function { public: true, name, args, body }) is Ok,
        spec_statement(Statement::Function { public: false, name, args, body }) is Ok,
        spec_fmt(
            spec_statement(Statement::Function { public: true, name, args, body })->Ok_0,
            0,
            true,
            w,
            limit,
        ).0 == export_chars(name@, args@.len()) + newline() + spec_fmt(
            spec_statement(Statement::Function { public: false, name, args, body })->Ok_0,
            0,
            true,
            w,
            limit,
        ).0,
        spec_fmt(
            spec_statement(Statement::Function { public: true, name, args, body })->Ok_0,
            0,
            true,
            w,
            limit,
        ).1 == spec_fmt(
            spec_statement(Statement::Function { public: false, name, args, body })->Ok_0,
            0,
            true,
            w,
            limit,
        ).1,
{
    let ar = args@.len();
    let exp = export_chars(name@, ar);
    let b = spec_expr(body)->Ok_0;
    let e_t = crate::codegen::spec_export(true, name@, ar);
    let e_f = crate::codegen::spec_export(false, name@, ar);
    assert(e_t == cv(tv(exp), DocV::Line));
    assert(e_f == DocV::Nil);
    let c1t = cv(e_t, DocV::Line);
    let c1f = cv(e_f, DocV::Line);
    let rest2 = tv(name@);
    let rest3 = crate::codegen::spec_args_docv(args@);
    let rest4 = tv(" ->"@);
    let rest5 = crate::codegen::nestv(crate::codegen::INDENT as nat, cv(DocV::Line, b));
    let rest6 = cv(tv("."@), DocV::Line);
    let dt = cv(cv(cv(cv(cv(c1t, rest2), rest3), rest4), rest5), rest6);
    let df = cv(cv(cv(cv(cv(c1f, rest2), rest3), rest4), rest5), rest6);
    assert(spec_statement(Statement::Function { public: true, name, args, body })
        == Ok::<DocV, Unsupported>(dt));
    assert(spec_statement(Statement::Function { public: false, name, args, body })
        == Ok::<DocV, Unsupported>(df));

    // The head of the public spine renders the export line and ends at
    // column zero; the private head renders nothing before its line break.
    lemma_fmt_cons(tv(exp), DocV::Line, 0, true, w, limit);
    lemma_fmt_cons(e_t, DocV::Line, 0, true, w, limit);
    lemma_fmt_cons(e_f, DocV::Line, 0, true, w, limit);
    let ft1 = spec_fmt(c1t, 0, true, w, limit);
    let ff1 = spec_fmt(c1f, 0, true, w, limit);
    assert(spaces(0) =~= Seq::<char>::empty());
    assert(ft1.1 == 0 && ff1.1 == 0);
    assert(ft1.0 =~= exp + newline() + ff1.0);

    // From the shared line break on, both sides render the same text from
    // the same column.
    lemma_fmt_cons(c1t, rest2, 0, true, w, limit);
    lemma_fmt_cons(c1f, rest2, 0, true, w, limit);
    let ft2 = spec_fmt(cv(c1t, rest2), 0, true, w, limit);
    let ff2 = spec_fmt(cv(c1f, rest2), 0, true, w, limit);
    assert(ft2.1 == ff2.1);
    assert(ft2.0 =~= exp + newline() + ff2.0);

    lemma_fmt_cons(cv(c1t, rest2), rest3, 0, true, w, limit);
    lemma_fmt_cons(cv(c1f, rest2), rest3, 0, true, w, limit);
    let ft3 = spec_fmt(cv(cv(c1t, rest2), rest3), 0, true, w, limit);
    let ff3 = spec_fmt(cv(cv(c1f, rest2), rest3), 0, true, w, limit);
    assert(ft3.1 == ff3.1);
    assert(ft3.0 =~= exp + newline() + ff3.0);

    lemma_fmt_cons(cv(cv(c1t, rest2), rest3), rest4, 0, true, w, limit);
    lemma_fmt_cons(cv(cv(c1f, rest2), rest3), rest4, 0, true, w, limit);
    let ft4 = spec_fmt(cv(cv(cv(c1t, rest2), rest3), rest4), 0, true, w, limit);
    let ff4 = spec_fmt(cv(cv(cv(c1f, rest2), rest3), rest4), 0, true, w, limit);
    assert(ft4.1 == ff4.1);
    assert(ft4.0 =~= exp + newline() + ff4.0);

    lemma_fmt_cons(cv(cv(cv(c1t, rest2), rest3), rest4), rest5, 0, true, w, limit);
    lemma_fmt_cons(cv(cv(cv(c1f, rest2), rest3), rest4), rest5, 0, true, w, limit);
    let ft5 = spec_fmt(cv(cv(cv(cv(c1t, rest2), rest3), rest4), rest5), 0, true, w, limit);
    let ff5 = spec_fmt(cv(cv(cv(cv(c1f, rest2), rest3), rest4), rest5), 0, true, w, limit);
    assert(ft5.1 == ff5.1);
    assert(ft5.0 =~= exp + newline() + ff5.0);

    lemma_fmt_cons(cv(cv(cv(cv(c1t, rest2), rest3), rest4), rest5), rest6, 0, true, w, limit);
    lemma_fmt_cons(cv(cv(cv(cv(c1f, rest2), rest3), rest4), rest5), rest6, 0, true, w, limit);
    let ft6 = spec_fmt(dt, 0, true, w, limit);
    let ff6 = spec_fmt(df, 0, true, w, limit);
    assert(ft6.1 == ff6.1);
    assert(ft6.0 =~= exp + newline() + ff6.0);
}

// ---------------------------------------------------------------------------
// Erasure
// ---------------------------------------------------------------------------

/// Whether a statement is erased: it must leave no textual trace at all.
pub open spec fn is_erased(s: Statement) -> bool {
    match s {
        Statement::TypeDefinition { .. } => true,
        Statement::Import { .. } => true,
        Statement::ExternalType { .. } => true,
        _ => false,
    }
}

/// The statements with every erased one removed, order kept.
pub open spec fn strip_erased(ss: Seq<Statement>) -> Seq<Statement>
    decreases ss.len(),
{
    if ss.len() == 0 {
        Seq::empty()
    } else if is_erased(ss.last()) {
        strip_erased(ss.drop_last())
    } else {
        strip_erased(ss.drop_last()).push(ss.last())
    }
}

/// Appending one document to a concatenation renders as the concatenation
/// followed by that document at the column the concatenation reached.
proof fn lemma_fmt_concat_push(ds: Seq<DocV>, d: DocV, indent: nat, flat: bool, w: nat, limit: nat)
    ensures
        spec_fmt(concat_docv(ds.push(d)), indent, flat, w, limit) == ({
            let f1 = spec_fmt(concat_docv(ds), indent, flat, w, limit);
            let f2 = spec_fmt(d, indent, flat, f1.1, limit);
            (f1.0 + f2.0, f2.1)
        }),
    decreases ds.len(),
{
    if ds.len() == 0 {
        assert(ds.push(d)[0] == d);
        assert(ds.push(d).drop_first() =~= Seq::<DocV>::empty());
        assert(concat_docv(Seq::<DocV>::empty()) == DocV::Nil);
        assert(concat_docv(ds.push(d)) == DocV::Cons(Box::new(d), Box::new(DocV::Nil)));
        assert(ds =~= Seq::<DocV>::empty());
        assert(concat_docv(ds) == DocV::Nil);
        let fd = spec_fmt(d, indent, flat, w, limit);
        let fnil = spec_fmt(DocV::Nil, indent, flat, fd.1, limit);
        assert(fnil == (Seq::<char>::empty(), fd.1));
        assert(spec_fmt(concat_docv(ds.push(d)), indent, flat, w, limit) == (
            fd.0 + Seq::<char>::empty(),
            fd.1,
        ));
        assert(fd.0 + Seq::<char>::empty() =~= fd.0);
        assert(Seq::<char>::empty() + fd.0 =~= fd.0);
    } else {
        let p = ds.push(d);
        assert(p[0] == ds[0]);
        assert(p.drop_first() =~= ds.drop_first().push(d));
        assert(concat_docv(p) == DocV::Cons(Box::new(ds[0]), Box::new(concat_docv(p.drop_first()))));
        assert(concat_docv(ds) == DocV::Cons(
            Box::new(ds[0]),
            Box::new(concat_docv(ds.drop_first())),
        ));
        let f0 = spec_fmt(ds[0], indent, flat, w, limit);
        lemma_fmt_concat_push(ds.drop_first(), d, indent, flat, f0.1, limit);
        let fpre = spec_fmt(concat_docv(ds.drop_first()), indent, flat, f0.1, limit);
        let frec = spec_fmt(concat_docv(ds.drop_first().push(d)), indent, flat, f0.1, limit);
        let fd = spec_fmt(d, indent, flat, fpre.1, limit);
        assert(frec == (fpre.0 + fd.0, fd.1));
        assert(spec_fmt(concat_docv(p), indent, flat, w, limit) == (f0.0 + frec.0, frec.1));
        assert(spec_fmt(concat_docv(ds), indent, flat, w, limit) == (f0.0 + fpre.0, fpre.1));
        assert(f0.0 + (fpre.0 + fd.0) =~= (f0.0 + fpre.0) + fd.0);
    }
}

/// Removing the erased statements changes neither the outcome of
/// translation nor the rendering of the statement documents.
proof fn lemma_erasure_stmts(ss: Seq<Statement>, indent: nat, flat: bool, w: nat, limit: nat)
    ensures
        match (spec_statements(ss), spec_statements(strip_erased(ss))) {
            (Ok(ds), Ok(ds2)) => spec_fmt(concat_docv(ds), indent, flat, w, limit) == spec_fmt(
                concat_docv(ds2),
                indent,
                flat,
                w,
                limit,
            ),
            (Err(a), Err(b)) => a == b,
            _ => false,
        },
    decreases ss.len(),
{
    if ss.len() == 0 {
        assert(strip_erased(ss) == Seq::<Statement>::empty());
        assert(ss =~= Seq::<Statement>::empty());
    } else {
        let pre = ss.drop_last();
        let last = ss.last();
        lemma_erasure_stmts(pre, indent, flat, w, limit);
        if is_erased(last) {
            assert(spec_statement(last) == Ok::<DocV, Unsupported>(DocV::Nil));
            assert(strip_erased(ss) == strip_erased(pre));
            match spec_statements(pre) {
                Err(a) => {
                    assert(spec_statements(ss) == Err::<Seq<DocV>, Unsupported>(a));
                },
                Ok(ds_pre) => {
                    assert(spec_statements(ss) == Ok::<Seq<DocV>, Unsupported>(ds_pre.push(DocV::Nil)));
                    lemma_fmt_concat_push(ds_pre, DocV::Nil, indent, flat, w, limit);
                    let f1 = spec_fmt(concat_docv(ds_pre), indent, flat, w, limit);
                    let f2 = spec_fmt(DocV::Nil, indent, flat, f1.1, limit);
                    assert(f2 == (Seq::<char>::empty(), f1.1));
                    assert(f1.0 + Seq::<char>::empty() =~= f1.0);
                    assert(spec_fmt(concat_docv(ds_pre.push(DocV::Nil)), indent, flat, w, limit)
                        == f1);
                },
            }
        } else {
            let sp = strip_erased(pre).push(last);
            assert(strip_erased(ss) == sp);
            assert(sp.drop_last() =~= strip_erased(pre));
            assert(sp.last() == last);
            assert(sp.len() > 0);
            match (spec_statements(pre), spec_statements(strip_erased(pre))) {
                (Ok(ds_pre), Ok(ds2_pre)) => {
                    match spec_statement(last) {
                        Err(u) => {
                            assert(spec_statements(ss) == Err::<Seq<DocV>, Unsupported>(u));
                            assert(spec_statements(sp) == Err::<Seq<DocV>, Unsupported>(u));
                        },
                        Ok(d) => {
                            assert(spec_statements(ss) == Ok::<Seq<DocV>, Unsupported>(
                                ds_pre.push(d),
                            ));
                            assert(spec_statements(sp) == Ok::<Seq<DocV>, Unsupported>(
                                ds2_pre.push(d),
                            ));
                            lemma_fmt_concat_push(ds_pre, d, indent, flat, w, limit);
                            lemma_fmt_concat_push(ds2_pre, d, indent, flat, w, limit);
                            let f1 = spec_fmt(concat_docv(ds_pre), indent, flat, w, limit);
                            let f1b = spec_fmt(concat_docv(ds2_pre), indent, flat, w, limit);
                            assert(f1 == f1b);
                            assert(spec_fmt(concat_docv(ds_pre.push(d)), indent, flat, w, limit)
                                == spec_fmt(concat_docv(ds2_pre.push(d)), indent, flat, w, limit));
                        },
                    }
                },
                (Err(a), Err(_b)) => {
                    assert(spec_statements(ss) == Err::<Seq<DocV>, Unsupported>(a));
                    assert(spec_statements(sp) is Err);
                },
                _ => {
                    assert(false);
                },
            }
        }
    }
}

/// Erasure: type definitions, imports and external type declarations leave
/// no textual trace. A module translates and renders exactly as the same
/// module with every such statement removed, wherever they stand and
/// however many there are.
pub proof fn lemma_erasure(m: Module, stripped: Module)
    requires
        stripped.name@ == m.name@,
        stripped.statements@ == strip_erased(m.statements@),
    ensures
        spec_module(m) == spec_module(stripped),
{
    let lim = crate::RENDER_WIDTH as nat;
    lemma_erasure_stmts(m.statements@, 0, true, 0, lim);
    match (spec_statements(m.statements@), spec_statements(stripped.statements@)) {
        (Ok(ds), Ok(ds2)) => {
            let hdr = cv(cv(tv("-module("@ + m.name@ + ")."@), DocV::Line), concat_docv(ds));
            let hdr2 = cv(cv(tv("-module("@ + m.name@ + ")."@), DocV::Line), concat_docv(ds2));
            let head = cv(tv("-module("@ + m.name@ + ")."@), DocV::Line);
            lemma_fmt_cons(tv("-module("@ + m.name@ + ")."@), DocV::Line, 0, true, 0, lim);
            let fh = spec_fmt(head, 0, true, 0, lim);
            assert(fh.1 == 0);
            lemma_fmt_cons(head, concat_docv(ds), 0, true, 0, lim);
            lemma_fmt_cons(head, concat_docv(ds2), 0, true, 0, lim);
            assert(spec_fmt(hdr, 0, true, 0, lim) == spec_fmt(hdr2, 0, true, 0, lim));
            assert(crate::codegen::spec_module_docv(m.name@, ds) == hdr);
            assert(crate::codegen::spec_module_docv(stripped.name@, ds2) == hdr2);
        },
        (Err(_a), Err(_b)) => {},
        _ => {
            assert(false);
        },
    }
}

// ---------------------------------------------------------------------------
// Width sensitivity
// ---------------------------------------------------------------------------

/// The text between two rendered arguments: a comma and a space on one
/// line, or a comma and a line break onto the indentation when broken.
pub open spec fn args_sep_chars(indent: nat, flat: bool) -> Seq<char> {
    if flat {
        ", "@
    } else {
        ","@ + newline() + spaces(indent)
    }
}

/// The rendering of an argument list: each argument in order with the
/// comma delimiter between neighbours.
pub open spec fn args_render(
    ds: Seq<DocV>,
    indent: nat,
    flat: bool,
    width: nat,
    limit: nat,
) -> (Seq<char>, nat)
    decreases ds.len(),
{
    if ds.len() == 0 {
        (Seq::empty(), width)
    } else if ds.len() == 1 {
        spec_fmt(ds[0], indent, flat, width, limit)
    } else {
        let first = spec_fmt(ds[0], indent, flat, width, limit);
        let sepw = if flat {
            add_sat(first.1, ", "@.len())
        } else {
            indent
        };
        let rest = args_render(ds.drop_first(), indent, flat, sepw, limit);
        (first.0 + args_sep_chars(indent, flat) + rest.0, rest.1)
    }
}

/// Documents joined by the comma delimiter render in order: on one line
/// with `, ` between them, or broken with each one starting on a fresh
/// line at the current indentation.
proof fn lemma_delim_join(ds: Seq<DocV>, indent: nat, flat: bool, width: nat, limit: nat)
    ensures
        spec_fmt(join_docv(ds, crate::codegen::delim_v()), indent, flat, width, limit)
            == args_render(ds, indent, flat, width, limit),
    decreases ds.len(),
{
    let sep = crate::codegen::delim_v();
    if ds.len() == 0 {
        assert(intersperse_docv(ds, sep) =~= Seq::<DocV>::empty());
        assert(join_docv(ds, sep) == DocV::Nil);
    } else if ds.len() == 1 {
        assert(intersperse_docv(ds, sep) == ds);
        assert(concat_docv(ds) == DocV::Cons(
            Box::new(ds[0]),
            Box::new(concat_docv(ds.drop_first())),
        ));
        assert(ds.drop_first() =~= Seq::<DocV>::empty());
        assert(concat_docv(ds.drop_first()) == DocV::Nil);
        let f = spec_fmt(ds[0], indent, flat, width, limit);
        let fnil = spec_fmt(DocV::Nil, indent, flat, f.1, limit);
        assert(fnil == (Seq::<char>::empty(), f.1));
        let whole = spec_fmt(join_docv(ds, sep), indent, flat, width, limit);
        assert(whole == (f.0 + fnil.0, fnil.1));
        assert(whole.0 =~= f.0);
        assert(whole == args_render(ds, indent, flat, width, limit));
    } else {
        let rest_i = intersperse_docv(ds.drop_first(), sep);
        assert(intersperse_docv(ds, sep) == seq![ds[0], sep] + rest_i);
        crate::doc::lemma_concat_two_pub(ds[0], sep, rest_i);
        let f = spec_fmt(ds[0], indent, flat, width, limit);
        let fs = spec_fmt(sep, indent, flat, f.1, limit);
        reveal_strlit(",");
        reveal_strlit(" ");
        reveal_strlit(", ");
        assert(sep == (DocV::Break { broken: ","@, unbroken: ","@ + " "@ }));
        assert(","@ + " "@ =~= ", "@);
        let sepw = if flat {
            add_sat(f.1, ", "@.len())
        } else {
            indent
        };
        assert(fs == (args_sep_chars(indent, flat), sepw));
        lemma_delim_join(ds.drop_first(), indent, flat, sepw, limit);
        let fr = spec_fmt(join_docv(ds.drop_first(), sep), indent, flat, sepw, limit);
        let inner2 = DocV::Cons(Box::new(sep), Box::new(concat_docv(rest_i)));
        assert(concat_docv(rest_i) == join_docv(ds.drop_first(), sep));
        let f2 = spec_fmt(inner2, indent, flat, f.1, limit);
        assert(f2 == (fs.0 + fr.0, fr.1));
        let whole = spec_fmt(join_docv(ds, sep), indent, flat, width, limit);
        assert(join_docv(ds, sep) == DocV::Cons(Box::new(ds[0]), Box::new(inner2)));
        assert(whole == (f.0 + f2.0, f2.1));
        assert(whole.0 =~= f.0 + args_sep_chars(indent, flat) + fr.0);
        assert(whole == args_render(ds, indent, flat, width, limit));
    }
}

/// Width sensitivity: a function head's argument list collapses onto one
/// line, with `, ` between arguments, exactly when its one-line rendering
/// fits in the width remaining at the opening parenthesis; otherwise every
/// delimiter breaks, so each argument starts on a fresh line aligned one
/// column inside the opening parenthesis.
pub proof fn lemma_width_sensitivity(args: Seq<Arg>, mode: bool, indent: nat, w: nat, limit: nat)
    ensures
        ({
            let ds = crate::codegen::spec_args(args);
            let inner = cv(
                cv(tv("("@), crate::codegen::ncv(join_docv(ds, crate::codegen::delim_v()))),
                tv(")"@),
            );
            let flat = !(crate::doc::spec_fits(inner, limit - w) is Exceeded);
            let open_w = add_sat(w, "("@.len());
            let body = args_render(ds, open_w, flat, open_w, limit);
            spec_fmt(crate::codegen::spec_args_docv(args), indent, mode, w, limit) == (
                "("@ + body.0 + ")"@,
                add_sat(body.1, ")"@.len()),
            )
        }),
{
    let ds = crate::codegen::spec_args(args);
    let joined = join_docv(ds, crate::codegen::delim_v());
    let nc = crate::codegen::ncv(joined);
    let left = cv(tv("("@), nc);
    let inner = cv(left, tv(")"@));
    let flat = !(crate::doc::spec_fits(inner, limit - w) is Exceeded);
    assert(crate::codegen::spec_args_docv(args) == crate::codegen::groupv(inner));
    let whole = spec_fmt(crate::codegen::spec_args_docv(args), indent, mode, w, limit);
    assert(whole == spec_fmt(inner, indent, flat, w, limit));
    let open_w = add_sat(w, "("@.len());
    let fo = spec_fmt(tv("("@), indent, flat, w, limit);
    assert(fo == ("("@, open_w));
    let fj = spec_fmt(joined, open_w, flat, open_w, limit);
    assert(spec_fmt(nc, indent, flat, open_w, limit) == fj);
    lemma_delim_join(ds, open_w, flat, open_w, limit);
    let body = args_render(ds, open_w, flat, open_w, limit);
    assert(fj == body);
    let fl = spec_fmt(left, indent, flat, w, limit);
    assert(fl == ("("@ + body.0, body.1));
    let fc = spec_fmt(tv(")"@), indent, flat, body.1, limit);
    assert(fc == (")"@, add_sat(body.1, ")"@.len())));
    assert(spec_fmt(inner, indent, flat, w, limit) == (("("@ + body.0) + ")"@, fc.1));
    assert(("("@ + body.0) + ")"@ =~= "("@ + body.0 + ")"@);
}

} // verus!
