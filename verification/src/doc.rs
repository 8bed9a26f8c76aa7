use vstd::prelude::*;
use vstd::string::{StrSliceExecFns, StringExecFns};

verus! {

/// A layout document: an intermediate tree built by the translators and
/// rendered to text at a fixed maximum width.
pub enum Document {
    /// The empty document.
    Nil,
    /// A mandatory line break followed by the current indentation.
    Line,
    /// A literal piece of text.
    Text(String),
    /// An optional line break: inside a group that fits on one line it
    /// renders as `unbroken`; in a broken group it renders as `broken`
    /// followed by a newline and the current indentation.
    Break { broken: String, unbroken: String },
    /// Two documents, one after the other.
    Cons(Box<Document>, Box<Document>),
    /// A sub-document whose indentation is increased by a fixed number
    /// of columns.
    Nest(usize, Box<Document>),
    /// A sub-document whose indentation is set to the column at which it
    /// begins.
    NestCurrent(Box<Document>),
    /// A group: its optional breaks all collapse when its one-line
    /// rendering fits in the remaining width, and all expand otherwise.
    Group(Box<Document>),
}

/// The mathematical model of a document, with text as character sequences.
pub enum DocV {
    Nil,
    Line,
    Text(Seq<char>),
    Break { broken: Seq<char>, unbroken: Seq<char> },
    Cons(Box<DocV>, Box<DocV>),
    Nest(nat, Box<DocV>),
    NestCurrent(Box<DocV>),
    Group(Box<DocV>),
}

/// The model of a document.
pub open spec fn dv(d: Document) -> DocV
    decreases d,
{
    match d {
        Document::Nil => DocV::Nil,
        Document::Line => DocV::Line,
        Document::Text(s) => DocV::Text(s@),
        Document::Break { broken, unbroken } => DocV::Break { broken: broken@, unbroken: unbroken@ },
        Document::Cons(a, b) => DocV::Cons(Box::new(dv(*a)), Box::new(dv(*b))),
        Document::Nest(n, a) => DocV::Nest(n as nat, Box::new(dv(*a))),
        Document::NestCurrent(a) => DocV::NestCurrent(Box::new(dv(*a))),
        Document::Group(a) => DocV::Group(Box::new(dv(*a))),
    }
}

/// The models of a sequence of documents.
pub open spec fn dvs(s: Seq<Document>) -> Seq<DocV> {
    s.map_values(|d: Document| dv(d))
}

// ---------------------------------------------------------------------------
// Combinators
// ---------------------------------------------------------------------------

/// The empty document.
pub fn nil() -> (r: Document)
    ensures
        dv(r) == DocV::Nil,
{
    Document::Nil
}

/// A mandatory line break.
pub fn line() -> (r: Document)
    ensures
        dv(r) == DocV::Line,
{
    Document::Line
}

/// A document holding exactly the given text.
pub fn text(s: String) -> (r: Document)
    ensures
        dv(r) == DocV::Text(s@),
{
    Document::Text(s)
}

/// A document holding exactly the given text.
pub fn text_str(s: &str) -> (r: Document)
    ensures
        dv(r) == DocV::Text(s@),
{
    Document::Text(String::from_str(s))
}

/// An optional line break rendering as `broken` plus a newline when the
/// enclosing group is broken, and as `unbroken` when it fits.
pub fn break_(broken: &str, unbroken: &str) -> (r: Document)
    ensures
        dv(r) == (DocV::Break { broken: broken@, unbroken: unbroken@ }),
{
    Document::Break { broken: String::from_str(broken), unbroken: String::from_str(unbroken) }
}

/// A delimiter: renders as the delimiter plus one space on one line, and as
/// the delimiter followed by a line break when the group is broken.
pub fn delim(d: &str) -> (r: Document)
    ensures
        dv(r) == (DocV::Break { broken: d@, unbroken: d@ + " "@ }),
{
    let unbroken = String::from_str(d).concat(" ");
    Document::Break { broken: String::from_str(d), unbroken }
}

impl Document {
    /// This document followed by another.
    pub fn append(self, other: Document) -> (r: Document)
        ensures
            dv(r) == DocV::Cons(Box::new(dv(self)), Box::new(dv(other))),
    {
        Document::Cons(Box::new(self), Box::new(other))
    }

    /// This document with its indentation increased by `n` columns.
    pub fn nest(self, n: usize) -> (r: Document)
        ensures
            dv(r) == DocV::Nest(n as nat, Box::new(dv(self))),
    {
        Document::Nest(n, Box::new(self))
    }

    /// This document indented to the column at which it begins.
    pub fn nest_current(self) -> (r: Document)
        ensures
            dv(r) == DocV::NestCurrent(Box::new(dv(self))),
    {
        Document::NestCurrent(Box::new(self))
    }

    /// This document as a group: its optional breaks collapse exactly when
    /// its one-line rendering fits in the remaining width.
    pub fn group(self) -> (r: Document)
        ensures
            dv(r) == DocV::Group(Box::new(dv(self))),
    {
        Document::Group(Box::new(self))
    }

    /// This document surrounded by a literal prefix and suffix.
    pub fn surround(self, open: &str, close: &str) -> (r: Document)
        ensures
            dv(r) == DocV::Cons(
                Box::new(DocV::Cons(Box::new(DocV::Text(open@)), Box::new(dv(self)))),
                Box::new(DocV::Text(close@)),
            ),
    {
        text_str(open).append(self).append(text_str(close))
    }
}

// ---------------------------------------------------------------------------
// Concatenation and joining of document lists
// ---------------------------------------------------------------------------

/// The concatenation of a sequence of documents, front to back.
pub open spec fn concat_docv(ds: Seq<DocV>) -> DocV
    decreases ds.len(),
{
    if ds.len() == 0 {
        DocV::Nil
    } else {
        DocV::Cons(Box::new(ds[0]), Box::new(concat_docv(ds.drop_first())))
    }
}

/// One document after the other, in the order given.
pub fn concat(docs: Vec<Document>) -> (r: Document)
    ensures
        dv(r) == concat_docv(dvs(docs@)),
{
    let ghost all = docs@;
    let mut docs = docs;
    let mut acc = Document::Nil;
    proof {
        assert(all.skip(all.len() as int) =~= Seq::<Document>::empty());
        assert(dvs(all.skip(all.len() as int)) =~= Seq::<DocV>::empty());
    }
    while docs.len() > 0
        invariant
            docs@.len() <= all.len(),
            docs@ == all.take(docs@.len() as int),
            dv(acc) == concat_docv(dvs(all.skip(docs@.len() as int))),
        decreases docs@.len(),
    {
        let ghost n = docs@.len() as int;
        let d = match docs.pop() {
            Some(d) => d,
            None => Document::Nil,
        };
        proof {
            assert(d == all[n - 1]);
            assert(docs@ =~= all.take(n - 1));
            let tail = all.skip(n - 1);
            assert(tail.len() > 0);
            assert(tail[0] == all[n - 1]);
            assert(tail.drop_first() =~= all.skip(n));
            assert(dvs(tail)[0] == dv(all[n - 1]));
            assert(dvs(tail).drop_first() =~= dvs(all.skip(n)));
        }
        acc = Document::Cons(Box::new(d), Box::new(acc));
    }
    proof {
        assert(all.skip(0) =~= all);
    }
    acc
}

/// The given documents with the separator between each two neighbours.
pub open spec fn intersperse_docv(ds: Seq<DocV>, sep: DocV) -> Seq<DocV>
    decreases ds.len(),
{
    if ds.len() == 0 {
        Seq::empty()
    } else if ds.len() == 1 {
        ds
    } else {
        seq![ds[0], sep] + intersperse_docv(ds.drop_first(), sep)
    }
}

/// A structural copy of a document, with the same model.
pub fn clone_doc(d: &Document) -> (r: Document)
    ensures
        dv(r) == dv(*d),
    decreases *d,
{
    match d {
        Document::Nil => Document::Nil,
        Document::Line => Document::Line,
        Document::Text(s) => Document::Text(String::from_str(s.as_str())),
        Document::Break { broken, unbroken } => Document::Break {
            broken: String::from_str(broken.as_str()),
            unbroken: String::from_str(unbroken.as_str()),
        },
        Document::Cons(a, b) => Document::Cons(Box::new(clone_doc(a)), Box::new(clone_doc(b))),
        Document::Nest(n, a) => Document::Nest(*n, Box::new(clone_doc(a))),
        Document::NestCurrent(a) => Document::NestCurrent(Box::new(clone_doc(a))),
        Document::Group(a) => Document::Group(Box::new(clone_doc(a))),
    }
}

/// The documents joined by the separator, as one document.
pub open spec fn join_docv(ds: Seq<DocV>, sep: DocV) -> DocV {
    concat_docv(intersperse_docv(ds, sep))
}

/// Unfolding of the concatenation over a two-element prefix.
pub proof fn lemma_concat_two_pub(x: DocV, y: DocV, z: Seq<DocV>)
    ensures
        concat_docv(seq![x, y] + z) == DocV::Cons(
            Box::new(x),
            Box::new(DocV::Cons(Box::new(y), Box::new(concat_docv(z)))),
        ),
{
    let s = seq![x, y] + z;
    let t = seq![y] + z;
    assert(s[0] == x);
    assert(s.drop_first() =~= t);
    assert(t[0] == y);
    assert(t.drop_first() =~= z);
    assert(concat_docv(t) == DocV::Cons(Box::new(y), Box::new(concat_docv(z))));
    assert(concat_docv(s) == DocV::Cons(Box::new(x), Box::new(concat_docv(t))));
}

/// The documents joined by the separator: `d0 sep d1 sep ... dn`.
pub fn join(docs: Vec<Document>, sep: Document) -> (r: Document)
    ensures
        dv(r) == join_docv(dvs(docs@), dv(sep)),
{
    let ghost all = docs@;
    let ghost sepv = dv(sep);
    let mut docs = docs;
    if docs.len() == 0 {
        proof {
            assert(dvs(all) =~= Seq::<DocV>::empty());
        }
        return Document::Nil;
    }
    let last = docs.pop().unwrap();
    let ghost lastv = dv(last);
    let mut acc = Document::Cons(Box::new(last), Box::new(Document::Nil));
    proof {
        assert(dv(Document::Nil) == DocV::Nil);
        assert(dv(acc) == DocV::Cons(Box::new(lastv), Box::new(DocV::Nil)));
        let tail = all.skip(all.len() - 1);
        assert(tail.len() == 1);
        assert(tail[0] == all[all.len() - 1]);
        let vtail = dvs(tail);
        assert(vtail.len() == 1);
        assert(intersperse_docv(vtail, sepv) == vtail);
        assert(vtail[0] == dv(all[all.len() - 1]));
        assert(vtail.drop_first() =~= Seq::<DocV>::empty());
        assert(concat_docv(vtail.drop_first()) == DocV::Nil);
        assert(concat_docv(vtail) == DocV::Cons(Box::new(vtail[0]), Box::new(DocV::Nil)));
        assert(docs@ =~= all.take(all.len() - 1));
        assert(docs@.len() == all.len() - 1);
        assert(dvs(all.skip(docs@.len() as int)) == vtail);
    }
    while docs.len() > 0
        invariant
            docs@.len() < all.len(),
            docs@ == all.take(docs@.len() as int),
            dv(sep) == sepv,
            dv(acc) == concat_docv(intersperse_docv(dvs(all.skip(docs@.len() as int)), sepv)),
        decreases docs@.len(),
    {
        let ghost n = docs@.len() as int;
        let ghost accv = dv(acc);
        let d = docs.pop().unwrap();
        let ghost dvd = dv(d);
        let s = clone_doc(&sep);
        let ghost dvsep = dv(s);
        let inner = Document::Cons(Box::new(s), Box::new(acc));
        let ghost innerv = dv(inner);
        proof {
            assert(innerv == DocV::Cons(Box::new(dvsep), Box::new(accv)));
        }
        acc = Document::Cons(Box::new(d), Box::new(inner));
        proof {
            assert(dv(acc) == DocV::Cons(Box::new(dvd), Box::new(innerv)));
            assert(d == all[n - 1]);
            assert(docs@ =~= all.take(n - 1));
            let tail = all.skip(n - 1);
            assert(tail.len() >= 2);
            assert(tail[0] == all[n - 1]);
            assert(tail.drop_first() =~= all.skip(n));
            let vtail = dvs(tail);
            assert(vtail[0] == dv(all[n - 1]));
            assert(vtail.drop_first() =~= dvs(all.skip(n)));
            lemma_concat_two_pub(vtail[0], sepv, intersperse_docv(vtail.drop_first(), sepv));
            assert(intersperse_docv(vtail, sepv)
                == seq![vtail[0], sepv] + intersperse_docv(vtail.drop_first(), sepv));
            let x = intersperse_docv(vtail.drop_first(), sepv);
            assert(x == intersperse_docv(dvs(all.skip(n)), sepv));
            assert(accv == concat_docv(x));
            assert(dvsep == sepv);
            assert(innerv == DocV::Cons(Box::new(sepv), Box::new(concat_docv(x))));
            assert(dv(acc) == concat_docv(seq![vtail[0], sepv] + x));
            assert(dv(acc) == concat_docv(intersperse_docv(vtail, sepv)));
            assert(docs@.len() == n - 1);
            assert(dvs(all.skip(docs@.len() as int)) == vtail);
            assert(dv(acc) == concat_docv(intersperse_docv(dvs(all.skip(docs@.len() as int)), sepv)));
        }
    }
    proof {
        assert(all.skip(0) =~= all);
    }
    acc
}

// ---------------------------------------------------------------------------
// Rendering
// ---------------------------------------------------------------------------

/// Whether a document's one-line rendering fits in the remaining width:
/// either a mandatory break is reached first, or the text up to the end
/// consumes no more than the given budget.
pub enum FitOutcome {
    /// A mandatory line break was reached within the budget.
    HitLine,
    /// The whole document was consumed, leaving this much budget.
    Used(int),
    /// The one-line rendering exceeds the budget.
    Exceeded,
}

/// The fitting check for the one-line rendering of `d` against a remaining
/// width of `rem` columns.
pub open spec fn spec_fits(d: DocV, rem: int) -> FitOutcome
    decreases d,
{
    match d {
        DocV::Nil => FitOutcome::Used(rem),
        DocV::Line => FitOutcome::HitLine,
        DocV::Text(s) => if s.len() <= rem {
            FitOutcome::Used(rem - s.len())
        } else {
            FitOutcome::Exceeded
        },
        DocV::Break { broken, unbroken } => if unbroken.len() <= rem {
            FitOutcome::Used(rem - unbroken.len())
        } else {
            FitOutcome::Exceeded
        },
        DocV::Cons(a, b) => match spec_fits(*a, rem) {
            FitOutcome::Used(r2) => spec_fits(*b, r2),
            FitOutcome::HitLine => FitOutcome::HitLine,
            FitOutcome::Exceeded => FitOutcome::Exceeded,
        },
        DocV::Nest(_n, a) => spec_fits(*a, rem),
        DocV::NestCurrent(a) => spec_fits(*a, rem),
        DocV::Group(a) => spec_fits(*a, rem),
    }
}

/// A newline character.
pub open spec fn newline() -> Seq<char> {
    seq!['\n']
}

/// `n` spaces.
pub open spec fn spaces(n: nat) -> Seq<char> {
    Seq::new(n, |i: int| ' ')
}

/// Column arithmetic, capped at the machine's limit.
pub open spec fn add_sat(a: nat, b: nat) -> nat {
    if a + b > usize::MAX {
        usize::MAX as nat
    } else {
        (a + b) as nat
    }
}

/// The rendering of a document and the column reached after it.
/// `indent` is the current indentation, `flat` whether the enclosing group
/// keeps its optional breaks on one line, `width` the current column, and
/// `limit` the maximum width given to the renderer.
pub open spec fn spec_fmt(d: DocV, indent: nat, flat: bool, width: nat, limit: nat) -> (Seq<char>, nat)
    decreases d,
{
    match d {
        DocV::Nil => (Seq::empty(), width),
        DocV::Line => (newline() + spaces(indent), indent),
        DocV::Text(s) => (s, add_sat(width, s.len())),
        DocV::Break { broken, unbroken } => if flat {
            (unbroken, add_sat(width, unbroken.len()))
        } else {
            (broken + newline() + spaces(indent), indent)
        },
        DocV::Cons(a, b) => {
            let (s1, w1) = spec_fmt(*a, indent, flat, width, limit);
            let (s2, w2) = spec_fmt(*b, indent, flat, w1, limit);
            (s1 + s2, w2)
        },
        DocV::Nest(n, a) => spec_fmt(*a, add_sat(indent, n), flat, width, limit),
        DocV::NestCurrent(a) => spec_fmt(*a, width, flat, width, limit),
        DocV::Group(a) => spec_fmt(
            *a,
            indent,
            !(spec_fits(*a, limit - width) is Exceeded),
            width,
            limit,
        ),
    }
}

/// The rendering of a whole document at the given maximum width.
pub open spec fn spec_format(d: DocV, limit: nat) -> Seq<char> {
    spec_fmt(d, 0, true, 0, limit).0
}

/// The outcome of the executable fitting check.
enum Fitness {
    HitLine,
    Used(i128),
    Exceeded,
}

fn fits(d: &Document, rem: i128) -> (r: Fitness)
    requires
        rem <= usize::MAX as i128,
    ensures
        match r {
            Fitness::HitLine => spec_fits(dv(*d), rem as int) is HitLine,
            Fitness::Used(r2) => spec_fits(dv(*d), rem as int) == FitOutcome::Used(r2 as int)
                && r2 <= rem,
            Fitness::Exceeded => spec_fits(dv(*d), rem as int) is Exceeded,
        },
    decreases *d,
{
    match d {
        Document::Nil => Fitness::Used(rem),
        Document::Line => Fitness::HitLine,
        Document::Text(s) => {
            let n = s.as_str().unicode_len();
            if n as i128 <= rem {
                Fitness::Used(rem - n as i128)
            } else {
                Fitness::Exceeded
            }
        },
        Document::Break { broken: _, unbroken } => {
            let n = unbroken.as_str().unicode_len();
            if n as i128 <= rem {
                Fitness::Used(rem - n as i128)
            } else {
                Fitness::Exceeded
            }
        },
        Document::Cons(a, b) => {
            let ra = fits(a, rem);
            match ra {
                Fitness::Used(r2) => fits(b, r2),
                Fitness::HitLine => Fitness::HitLine,
                Fitness::Exceeded => Fitness::Exceeded,
            }
        },
        Document::Nest(_n, a) => fits(a, rem),
        Document::NestCurrent(a) => fits(a, rem),
        Document::Group(a) => fits(a, rem),
    }
}

fn push_spaces(out: &mut String, n: usize)
    ensures
        final(out)@ == old(out)@ + spaces(n as nat),
{
    let mut i: usize = 0;
    proof {
        assert(out@ =~= old(out)@ + spaces(0));
    }
    while i < n
        invariant
            i <= n,
            out@ == old(out)@ + spaces(i as nat),
        decreases n - i,
    {
        out.append(" ");
        proof {
            reveal_strlit(" ");
            assert(spaces((i + 1) as nat) =~= spaces(i as nat) + " "@);
            assert(old(out)@ + spaces((i + 1) as nat) =~= (old(out)@ + spaces(i as nat)) + " "@);
        }
        i = i + 1;
    }
}

fn fmt(d: &Document, indent: usize, flat: bool, width: usize, limit: usize, out: &mut String) -> (w: usize)
    ensures
        ({
            let sw = spec_fmt(dv(*d), indent as nat, flat, width as nat, limit as nat);
            final(out)@ == old(out)@ + sw.0 && w as nat == sw.1
        }),
    decreases *d,
{
    match d {
        Document::Nil => {
            proof {
                assert(out@ =~= old(out)@ + Seq::<char>::empty());
            }
            width
        },
        Document::Line => {
            out.append("\n");
            push_spaces(out, indent);
            proof {
                reveal_strlit("\n");
                assert("\n"@ =~= newline());
                assert(out@ =~= old(out)@ + (newline() + spaces(indent as nat)));
            }
            indent
        },
        Document::Text(s) => {
            let n = s.as_str().unicode_len();
            out.append(s.as_str());
            width.saturating_add(n)
        },
        Document::Break { broken, unbroken } => {
            if flat {
                let n = unbroken.as_str().unicode_len();
                out.append(unbroken.as_str());
                width.saturating_add(n)
            } else {
                out.append(broken.as_str());
                out.append("\n");
                push_spaces(out, indent);
                proof {
                    reveal_strlit("\n");
                    assert("\n"@ =~= newline());
                    assert(out@ =~= old(out)@ + (broken@ + newline() + spaces(indent as nat)));
                }
                indent
            }
        },
        Document::Cons(a, b) => {
            let w1 = fmt(a, indent, flat, width, limit, out);
            let w2 = fmt(b, indent, flat, w1, limit, out);
            proof {
                let sa = spec_fmt(dv(**a), indent as nat, flat, width as nat, limit as nat);
                let sb = spec_fmt(dv(**b), indent as nat, flat, sa.1, limit as nat);
                assert(out@ =~= old(out)@ + (sa.0 + sb.0));
            }
            w2
        },
        Document::Nest(n, a) => fmt(a, indent.saturating_add(*n), flat, width, limit, out),
        Document::NestCurrent(a) => fmt(a, width, flat, width, limit, out),
        Document::Group(a) => {
            let f = fits(a, limit as i128 - width as i128);
            let newflat = !matches!(f, Fitness::Exceeded);
            fmt(a, indent, newflat, width, limit, out)
        },
    }
}

impl Document {
    /// Renders the document to text at the given maximum width.
    pub fn format(&self, limit: usize) -> (r: String)
        ensures
            r@ == spec_format(dv(*self), limit as nat),
    {
        let mut out = String::from_str("");
        let _ = fmt(self, 0, true, 0, limit, &mut out);
        proof {
            reveal_strlit("");
            assert(""@ + spec_format(dv(*self), limit as nat) =~= spec_format(dv(*self), limit as nat));
        }
        out
    }
}

} // verus!
