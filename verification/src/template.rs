//! Text templates with `{name}` placeholders, as used by custom schemes and `list --template`.

use vstd::prelude::*;

use crate::assoc::{assoc_map, lemma_assoc_map_absent, lemma_assoc_map_last};
use crate::text::{chars_of, string_of};

verus! {

/// One piece of a template, as a mathematical value.
pub enum PieceView {
    /// Text copied as it is.
    Literal(Seq<char>),
    /// A placeholder `{name}` replaced by the value of the variable `name`.
    Variable(Seq<char>),
}

/// The state of reading a template from left to right.
pub struct ScanState {
    /// The pieces completed so far.
    pub pieces: Seq<PieceView>,
    /// The characters of the piece being read.
    pub cur: Seq<char>,
    /// Whether the piece being read is a placeholder (a `{` was read and no `}` yet).
    pub in_var: bool,
    /// Whether a character was read that the syntax does not allow there.
    pub failed: bool,
}

/// The state before any character is read.
pub open spec fn scan_init() -> ScanState {
    ScanState { pieces: seq![], cur: seq![], in_var: false, failed: false }
}

/// Reads one more character. Inside a placeholder, `}` closes it (its name must not be empty)
/// and `{` is refused; outside, `{` opens a placeholder and `}` is refused.
pub open spec fn scan_step(st: ScanState, c: char) -> ScanState {
    if st.failed {
        st
    } else if st.in_var {
        if c == '}' {
            if st.cur.len() == 0 {
                ScanState { failed: true, ..st }
            } else {
                ScanState {
                    pieces: st.pieces.push(PieceView::Variable(st.cur)),
                    cur: seq![],
                    in_var: false,
                    failed: false,
                }
            }
        } else if c == '{' {
            ScanState { failed: true, ..st }
        } else {
            ScanState { cur: st.cur.push(c), ..st }
        }
    } else {
        if c == '{' {
            ScanState {
                pieces: if st.cur.len() > 0 {
                    st.pieces.push(PieceView::Literal(st.cur))
                } else {
                    st.pieces
                },
                cur: seq![],
                in_var: true,
                failed: false,
            }
        } else if c == '}' {
            ScanState { failed: true, ..st }
        } else {
            ScanState { cur: st.cur.push(c), ..st }
        }
    }
}

/// The state after reading all of `s`.
pub open spec fn scan(s: Seq<char>) -> ScanState
    decreases s.len(),
{
    if s.len() == 0 {
        scan_init()
    } else {
        scan_step(scan(s.drop_last()), s.last())
    }
}

/// The pieces of the template written as `s`, or `None` where `s` is not a valid template:
/// a `}` outside a placeholder, a `{` inside one, an empty placeholder, or an unclosed one.
pub open spec fn parse_template(s: Seq<char>) -> Option<Seq<PieceView>> {
    let st = scan(s);
    if st.failed || st.in_var {
        None
    } else if st.cur.len() > 0 {
        Some(st.pieces.push(PieceView::Literal(st.cur)))
    } else {
        Some(st.pieces)
    }
}

/// The text of one piece as it is written in a template.
pub open spec fn render_piece(p: PieceView) -> Seq<char> {
    match p {
        PieceView::Literal(l) => l,
        PieceView::Variable(n) => seq!['{'] + n + seq!['}'],
    }
}

/// The text of a sequence of pieces as it is written in a template.
pub open spec fn render(pieces: Seq<PieceView>) -> Seq<char>
    decreases pieces.len(),
{
    if pieces.len() == 0 {
        seq![]
    } else {
        render(pieces.drop_last()) + render_piece(pieces.last())
    }
}

/// The text of one piece once its placeholder is filled in; a variable without a value
/// gives the empty text.
pub open spec fn expand_piece(p: PieceView, vars: Map<Seq<char>, Seq<char>>) -> Seq<char> {
    match p {
        PieceView::Literal(l) => l,
        PieceView::Variable(n) => if vars.contains_key(n) {
            vars[n]
        } else {
            seq![]
        },
    }
}

/// The text of a sequence of pieces once their placeholders are filled in.
pub open spec fn expand_pieces(pieces: Seq<PieceView>, vars: Map<Seq<char>, Seq<char>>) -> Seq<
    char,
>
    decreases pieces.len(),
{
    if pieces.len() == 0 {
        seq![]
    } else {
        expand_pieces(pieces.drop_last(), vars) + expand_piece(pieces.last(), vars)
    }
}

/// The first placeholder of `pieces` whose name is not in `names`, if any.
pub open spec fn first_unknown(pieces: Seq<PieceView>, names: Set<Seq<char>>) -> Option<Seq<char>>
    decreases pieces.len(),
{
    if pieces.len() == 0 {
        None
    } else {
        match pieces[0] {
            PieceView::Variable(n) if !names.contains(n) => Some(n),
            _ => first_unknown(pieces.drop_first(), names),
        }
    }
}

/// One piece of a template.
#[derive(Debug)]
pub enum Piece {
    Literal(String),
    Variable(String),
}

impl View for Piece {
    type V = PieceView;

    open spec fn view(&self) -> PieceView {
        match self {
            Piece::Literal(l) => PieceView::Literal(l@),
            Piece::Variable(n) => PieceView::Variable(n@),
        }
    }
}

impl Clone for Piece {
    fn clone(&self) -> (res: Self)
        ensures
            res@ == self@,
    {
        match self {
            Piece::Literal(l) => Piece::Literal(l.clone()),
            Piece::Variable(n) => Piece::Variable(n.clone()),
        }
    }
}

/// A parsed template.
#[derive(Debug)]
pub struct Template {
    pieces: Vec<Piece>,
}

/// The views of a sequence of pieces.
pub open spec fn pieces_view(pieces: Seq<Piece>) -> Seq<PieceView> {
    pieces.map_values(|p: Piece| p@)
}

impl View for Template {
    type V = Seq<PieceView>;

    closed spec fn view(&self) -> Seq<PieceView> {
        pieces_view(self.pieces@)
    }
}

/// The reasons a template is refused.
#[derive(Debug)]
pub enum TemplateError {
    /// The text is not a valid template.
    InvalidTemplate { template: String },
    /// The template uses a variable that is not available.
    UnknownVariable { name: String },
}

/// The message for a refused template.
pub open spec fn template_error_message(e: TemplateError) -> Seq<char> {
    match e {
        TemplateError::InvalidTemplate { template } => "invalid template `"@ + template@ + "`"@,
        TemplateError::UnknownVariable { name } => "unknown template variable `"@ + name@ + "`"@,
    }
}

impl TemplateError {
    /// The message shown to the user (see `template_error_message`).
    pub fn message(&self) -> (res: String)
        ensures
            res@ == template_error_message(*self),
    {
        let (mut res, arg) = match self {
            TemplateError::InvalidTemplate { template } => (
                String::from_str("invalid template `"),
                template,
            ),
            TemplateError::UnknownVariable { name } => (
                String::from_str("unknown template variable `"),
                name,
            ),
        };
        res.append(arg.as_str());
        res.append("`");
        res
    }
}

/// Once reading has failed it stays failed.
proof fn lemma_scan_failed_stays(s: Seq<char>, n: int)
    requires
        0 <= n <= s.len(),
        scan(s.take(n)).failed,
    ensures
        scan(s).failed,
    decreases s.len() - n,
{
    if n < s.len() {
        assert(s.take(n + 1).drop_last() =~= s.take(n));
        lemma_scan_failed_stays(s, n + 1);
    } else {
        assert(s.take(n) =~= s);
    }
}

/// Reading one more character of a string extends the scan of its prefix.
proof fn lemma_scan_take(s: Seq<char>, i: int)
    requires
        0 <= i < s.len(),
    ensures
        scan(s.take(i + 1)) == scan_step(scan(s.take(i)), s[i]),
{
    assert(s.take(i + 1).drop_last() =~= s.take(i));
}

impl Clone for Template {
    fn clone(&self) -> (res: Self)
        ensures
            res@ == self@,
    {
        let mut pieces: Vec<Piece> = Vec::new();
        let mut i: usize = 0;
        while i < self.pieces.len()
            invariant
                i <= self.pieces.len(),
                pieces_view(pieces@) == pieces_view(self.pieces@).take(i as int),
            decreases self.pieces.len() - i,
        {
            let p = self.pieces[i].clone();
            assert(p@ == self.pieces@[i as int]@);
            let ghost before = pieces@;
            pieces.push(p);
            assert(pieces_view(pieces@) =~= pieces_view(before).push(p@));
            assert(pieces_view(self.pieces@).take(i + 1) =~= pieces_view(self.pieces@).take(
                i as int,
            ).push(p@));
            i = i + 1;
        }
        assert(pieces_view(self.pieces@).take(i as int) =~= pieces_view(self.pieces@));
        Template { pieces }
    }
}

impl Template {
    /// Makes a template of the given pieces.
    pub(crate) fn from_pieces(pieces: Vec<Piece>) -> (res: Template)
        ensures
            res@ == pieces_view(pieces@),
    {
        Template { pieces }
    }

    /// Parses a template: text with `{name}` placeholders.
    pub fn parse(s: &str) -> (res: Result<Template, TemplateError>)
        ensures
            match res {
                Ok(t) => parse_template(s@) == Some(t@),
                Err(TemplateError::InvalidTemplate { template }) => parse_template(s@) is None
                    && template@ == s@,
                Err(TemplateError::UnknownVariable { .. }) => false,
            },
    {
        let chars = chars_of(s);
        let mut pieces: Vec<Piece> = Vec::new();
        let mut start: usize = 0;
        let mut in_var = false;
        let mut i: usize = 0;
        assert(chars@.take(0) =~= seq![]);
        while i < chars.len()
            invariant
                chars@ == s@,
                start <= i <= chars.len(),
                ({
                    let st = scan(chars@.take(i as int));
                    &&& !st.failed
                    &&& st.in_var == in_var
                    &&& st.cur == chars@.subrange(start as int, i as int)
                    &&& st.pieces == pieces_view(pieces@)
                }),
            decreases chars.len() - i,
        {
            let c = chars[i];
            proof {
                lemma_scan_take(chars@, i as int);
            }
            let ghost st = scan(chars@.take(i as int));
            if in_var {
                if c == '}' {
                    if start == i {
                        proof {
                            lemma_scan_failed_stays(chars@, i + 1);
                        }
                        return Err(TemplateError::InvalidTemplate { template: s.to_owned() });
                    }
                    let name = string_of(&chars, start, i);
                    pieces.push(Piece::Variable(name));
                    in_var = false;
                    start = i + 1;
                    assert(pieces_view(pieces@) =~= st.pieces.push(PieceView::Variable(st.cur)));
                } else if c == '{' {
                    proof {
                        lemma_scan_failed_stays(chars@, i + 1);
                    }
                    return Err(TemplateError::InvalidTemplate { template: s.to_owned() });
                }
            } else {
                if c == '{' {
                    if start < i {
                        let lit = string_of(&chars, start, i);
                        pieces.push(Piece::Literal(lit));
                        assert(pieces_view(pieces@) =~= st.pieces.push(
                            PieceView::Literal(st.cur),
                        ));
                    }
                    in_var = true;
                    start = i + 1;
                } else if c == '}' {
                    proof {
                        lemma_scan_failed_stays(chars@, i + 1);
                    }
                    return Err(TemplateError::InvalidTemplate { template: s.to_owned() });
                }
            }
            assert(chars@.subrange(start as int, i + 1) =~= if start == i + 1 {
                seq![]
            } else {
                chars@.subrange(start as int, i as int).push(c)
            });
            i = i + 1;
        }
        assert(chars@.take(chars.len() as int) =~= chars@);
        if in_var {
            return Err(TemplateError::InvalidTemplate { template: s.to_owned() });
        }
        if start < chars.len() {
            let ghost before = pieces_view(pieces@);
            let lit = string_of(&chars, start, chars.len());
            pieces.push(Piece::Literal(lit));
            assert(pieces_view(pieces@) =~= before.push(
                PieceView::Literal(chars@.subrange(start as int, chars.len() as int)),
            ));
        }
        Ok(Template { pieces })
    }

    /// Fills in the placeholders with the values of `vars`, a list of name/value pairs in
    /// which a later pair overrides an earlier one; a placeholder without a value is dropped.
    pub fn expand(&self, vars: &Vec<(String, String)>) -> (res: String)
        ensures
            res@ == expand_pieces(self@, assoc_map(vars_view(vars@))),
    {
        let ghost m = assoc_map(vars_view(vars@));
        let mut res = String::new();
        let mut i: usize = 0;
        while i < self.pieces.len()
            invariant
                i <= self.pieces.len(),
                m == assoc_map(vars_view(vars@)),
                res@ == expand_pieces(pieces_view(self.pieces@).take(i as int), m),
            decreases self.pieces.len() - i,
        {
            assert(pieces_view(self.pieces@).take(i + 1).drop_last() =~= pieces_view(
                self.pieces@,
            ).take(i as int));
            match &self.pieces[i] {
                Piece::Literal(l) => {
                    res.append(l.as_str());
                },
                Piece::Variable(n) => {
                    match lookup_var(vars, n) {
                        Some(v) => {
                            res.append(v.as_str());
                        },
                        None => {},
                    }
                },
            }
            i = i + 1;
        }
        assert(pieces_view(self.pieces@).take(self.pieces.len() as int) =~= pieces_view(
            self.pieces@,
        ));
        res
    }

    /// Checks that every placeholder names one of `names`; the error names the first one that
    /// does not.
    pub fn validate(&self, names: &Vec<String>) -> (res: Result<(), TemplateError>)
        ensures
            match res {
                Ok(()) => first_unknown(self@, names_view(names@)) is None,
                Err(TemplateError::UnknownVariable { name }) => first_unknown(
                    self@,
                    names_view(names@),
                ) == Some(name@),
                Err(TemplateError::InvalidTemplate { .. }) => false,
            },
    {
        let ghost ps = pieces_view(self.pieces@);
        let ghost ns = names_view(names@);
        let mut i: usize = 0;
        assert(ps.skip(0) =~= ps);
        while i < self.pieces.len()
            invariant
                i <= self.pieces.len(),
                ps == pieces_view(self.pieces@),
                ns == names_view(names@),
                first_unknown(ps, ns) == first_unknown(ps.skip(i as int), ns),
            decreases self.pieces.len() - i,
        {
            assert(ps.skip(i as int).drop_first() =~= ps.skip(i + 1));
            match &self.pieces[i] {
                Piece::Variable(n) => {
                    if !contains_name(names, n) {
                        return Err(TemplateError::UnknownVariable { name: n.clone() });
                    }
                },
                Piece::Literal(_) => {},
            }
            i = i + 1;
        }
        Ok(())
    }
}

/// The views of a list of name/value pairs.
pub open spec fn vars_view(vars: Seq<(String, String)>) -> Seq<(Seq<char>, Seq<char>)> {
    vars.map_values(|p: (String, String)| (p.0@, p.1@))
}

/// The set of the views of a list of names.
pub open spec fn names_view(names: Seq<String>) -> Set<Seq<char>> {
    names.map_values(|n: String| n@).to_set()
}

/// The value of the last pair named `name`.
fn lookup_var<'a>(vars: &'a Vec<(String, String)>, name: &String) -> (res: Option<&'a String>)
    ensures
        match res {
            Some(v) => assoc_map(vars_view(vars@)).contains_key(name@) && assoc_map(
                vars_view(vars@),
            )[name@] == v@,
            None => !assoc_map(vars_view(vars@)).contains_key(name@),
        },
{
    let ghost entries = vars_view(vars@);
    let mut i = vars.len();
    while i > 0
        invariant
            i <= vars.len(),
            entries == vars_view(vars@),
            forall|j: int| i <= j < vars.len() ==> entries[j].0 != name@,
        decreases i,
    {
        i = i - 1;
        if vars[i].0 == *name {
            proof {
                lemma_assoc_map_last(entries, i as int);
            }
            return Some(&vars[i].1);
        }
    }
    proof {
        lemma_assoc_map_absent(entries, name@);
    }
    None
}

/// Whether `name` is one of `names`.
pub(crate) fn contains_name(names: &Vec<String>, name: &String) -> (res: bool)
    ensures
        res == names_view(names@).contains(name@),
{
    let mut i: usize = 0;
    while i < names.len()
        invariant
            i <= names.len(),
            forall|j: int| 0 <= j < i ==> names@[j]@ != name@,
        decreases names.len() - i,
    {
        if names[i] == *name {
            assert(names@.map_values(|n: String| n@)[i as int] == name@);
            return true;
        }
        i = i + 1;
    }
    assert(!names@.map_values(|n: String| n@).contains(name@));
    false
}

/// Parsing a template and writing it back gives the text it was read from.
pub proof fn lemma_render_parse(s: Seq<char>)
    requires
        parse_template(s) is Some,
    ensures
        render(parse_template(s)->0) == s,
{
    lemma_scan_render(s);
    let st = scan(s);
    if st.cur.len() > 0 {
        assert(st.pieces.push(PieceView::Literal(st.cur)).drop_last() =~= st.pieces);
    } else {
        assert(st.cur =~= seq![]);
    }
}

/// What has been read so far is the rendered pieces followed by the piece being read.
proof fn lemma_scan_render(s: Seq<char>)
    requires
        !scan(s).failed,
    ensures
        ({
            let st = scan(s);
            s == render(st.pieces) + (if st.in_var {
                seq!['{'] + st.cur
            } else {
                st.cur
            })
        }),
    decreases s.len(),
{
    if s.len() == 0 {
        assert(render(seq![]) + seq![] =~= s);
    } else {
        let p = s.drop_last();
        let c = s.last();
        let st = scan(p);
        assert(!st.failed);
        lemma_scan_render(p);
        let st2 = scan(s);
        assert(p.push(c) =~= s);
        if st.in_var {
            if c == '}' {
                assert(st2.pieces.drop_last() =~= st.pieces);
                assert(render(st2.pieces) + st2.cur =~= s);
            } else {
                assert(render(st2.pieces) + (seq!['{'] + st2.cur) =~= s);
            }
        } else {
            if c == '{' {
                if st.cur.len() > 0 {
                    assert(st2.pieces.drop_last() =~= st.pieces);
                }
                assert(render(st2.pieces) + (seq!['{'] + st2.cur) =~= s);
            } else {
                assert(render(st2.pieces) + st2.cur =~= s);
            }
        }
    }
}

} // verus!
