//! The annotation parser: a line-oriented state machine that locates
//! annotated class declarations inside arbitrary surrounding text and
//! extracts the class model.
//!
//! The scanner seeks a trigger marker line (`// @flu`); the line that
//! follows it (blank lines and directive comments skipped) must be an
//! abstract class header over an underscored base name, else the attempt
//! is abandoned. Inside a recognized class body, brace depth is tracked
//! line by line; at depth one, a no-argument const constructor marker and
//! getter-only field declarations are recognized, the latter together
//! with an option comment on the line immediately above. A block still
//! open at the end of the input is abandoned without emitting the
//! partially built class.

use vstd::prelude::*;

use crate::decl::DartClass;
use crate::decl::DartField;
use crate::model::ClassModel;
use crate::model::FieldModel;
use crate::model::FileModel;
use crate::options::spec_options;
use crate::options::FieldOptions;
use crate::text::alpha_char;
use crate::text::find_char;
use crate::text::find_dslash;
use crate::text::lemma_find_dslash_bounds;
use crate::text::lemma_skip_ws_bounds;
use crate::text::lemma_trim_end_idx_bounds;
use crate::text::lemma_word_run_start_bounds;
use crate::text::find_from;
use crate::text::is_alpha;
use crate::text::is_ws;
use crate::text::lemma_find_from_bounds;
use crate::text::lemma_word_run_end_bounds;
use crate::text::skip_ws;
use crate::text::skip_ws_from;
use crate::text::str_eq;
use crate::text::trim_end_at;
use crate::text::trim_end_idx;
use crate::text::word_run;
use crate::text::word_run_back;
use crate::text::word_run_end;
use crate::text::word_run_start;
use crate::text::ws_char;
use crate::types::resolve_type;
use crate::types::DartType;

verus! {

broadcast use {
    lemma_find_from_bounds,
    lemma_word_run_end_bounds,
    lemma_word_run_start_bounds,
    lemma_trim_end_idx_bounds,
    lemma_skip_ws_bounds,
    lemma_find_dslash_bounds,
};

fn find_dslash_at(s: &str, i: usize) -> (r: usize)
    requires
        i <= s@.len(),
    ensures
        r as int == find_dslash(s@, i as int),
        i <= r <= s@.len(),
    decreases s@.len() - i,
{
    let n = s.unicode_len();
    if n - i <= 1 {
        n
    } else if s.get_char(i) == '/' && s.get_char(i + 1) == '/' {
        i
    } else {
        find_dslash_at(s, i + 1)
    }
}

/// A scanned line with its inline trailing comment and then trailing
/// whitespace removed.
pub open spec fn strip_comment(s: Seq<char>) -> Seq<char> {
    s.subrange(0, trim_end_idx(s, find_dslash(s, 0)))
}

fn strip_comment_exec(line: &str) -> (r: String)
    ensures
        r@ == strip_comment(line@),
{
    let j = find_dslash_at(line, 0);
    let e = trim_end_at(line, j);
    String::from_str(line.substring_char(0, e))
}

/// A line that is blank once leading whitespace is dropped.
pub open spec fn is_blank(s: Seq<char>) -> bool {
    skip_ws(s, 0) == s.len()
}

fn is_blank_exec(line: &str) -> (r: bool)
    ensures
        r == is_blank(line@),
{
    skip_ws_from(line, 0) == line.unicode_len()
}

/// A directive comment line: after leading whitespace it opens with
/// `// @flu: `. Such lines are skipped whole, never comment-stripped.
pub open spec fn is_flu_colon(s: Seq<char>) -> bool {
    let t = skip_ws(s, 0);
    t + 9 <= s.len() && s.subrange(t, t + 9) == "// @flu: "@
}

fn is_flu_colon_exec(line: &str) -> (r: bool)
    ensures
        r == is_flu_colon(line@),
{
    let t = skip_ws_from(line, 0);
    let n = line.unicode_len();
    n - t >= 9 && str_eq(line.substring_char(t, t + 9), "// @flu: ")
}

/// The class-header shape: `abstract class _` then the base name, then a
/// space and the opening brace. Yields the base name.
pub open spec fn class_header_name(s: Seq<char>) -> Option<Seq<char>> {
    if s.len() >= 16 && s.subrange(0, 16) == "abstract class _"@ {
        let j = word_run_end(s, 16);
        if j > 16 && j + 1 < s.len() && s[j] == ' ' && s[j + 1] == '{' {
            Some(s.subrange(16, j))
        } else {
            None
        }
    } else {
        None
    }
}

fn class_header_exec(line: &str) -> (r: Option<String>)
    ensures
        r is Some <==> class_header_name(line@) is Some,
        r is Some ==> r->0@ == class_header_name(line@)->0,
{
    let n = line.unicode_len();
    if n >= 16 && str_eq(line.substring_char(0, 16), "abstract class _") {
        let j = word_run(line, 16);
        if j > 16 && j < n - 1 && line.get_char(j) == ' ' && line.get_char(j + 1) == '{' {
            Some(String::from_str(line.substring_char(16, j)))
        } else {
            None
        }
    } else {
        None
    }
}

/// Whether the line closes with a brace, so a single-line header is a
/// complete (empty) declaration.
pub open spec fn ends_brace(s: Seq<char>) -> bool {
    s.len() > 0 && s[s.len() - 1] == '}'
}

/// The no-argument const constructor marker for the current base name.
pub open spec fn const_ctor_line(name: Seq<char>) -> Seq<char> {
    "  const _"@ + name + "();"@
}

/// The getter-only field declaration shape: two whitespace characters,
/// the type text, ` get `, the field name, and a closing semicolon.
/// Yields the raw type text and the field name.
pub open spec fn field_decl(s: Seq<char>) -> Option<(Seq<char>, Seq<char>)> {
    if s.len() >= 1 && s[s.len() - 1] == ';' {
        let p = word_run_start(s, s.len() - 1);
        if p < s.len() - 1 && p >= 8 && s.subrange(p - 5, p) == " get "@ && is_ws(s[0]) && is_ws(
            s[1],
        ) && is_alpha(s[2]) {
            Some((s.subrange(2, p - 5), s.subrange(p, s.len() - 1)))
        } else {
            None
        }
    } else {
        None
    }
}

fn field_decl_exec(line: &str) -> (r: Option<(String, String)>)
    ensures
        r is Some <==> field_decl(line@) is Some,
        r is Some ==> (r->0).0@ == (field_decl(line@)->0).0 && (r->0).1@ == (field_decl(
            line@,
        )->0).1,
{
    let n = line.unicode_len();
    if n >= 1 && line.get_char(n - 1) == ';' {
        let p = word_run_back(line, n - 1);
        if p < n - 1 && p >= 8 && str_eq(line.substring_char(p - 5, p), " get ") && ws_char(
            line.get_char(0),
        ) && ws_char(line.get_char(1)) && alpha_char(line.get_char(2)) {
            Some(
                (
                    String::from_str(line.substring_char(2, p - 5)),
                    String::from_str(line.substring_char(p, n - 1)),
                ),
            )
        } else {
            None
        }
    } else {
        None
    }
}

/// The field option comment shape on the raw preceding line: two spaces,
/// the marker, a space, then the payload.
pub open spec fn option_payload(s: Seq<char>) -> Option<Seq<char>> {
    if s.len() >= 10 && s.subrange(0, 10) == "  // @flu "@ {
        Some(s.subrange(10, s.len() as int))
    } else {
        None
    }
}

fn option_payload_exec(line: &str) -> (r: Option<String>)
    ensures
        r is Some <==> option_payload(line@) is Some,
        r is Some ==> r->0@ == option_payload(line@)->0,
{
    let n = line.unicode_len();
    if n >= 10 && str_eq(line.substring_char(0, 10), "  // @flu ") {
        Some(String::from_str(line.substring_char(10, n)))
    } else {
        None
    }
}

/// Whether a line opens or closes a scope; used to skip method bodies and
/// other members without interpreting them.
pub open spec fn has_open(s: Seq<char>) -> bool {
    find_from(s, '{', 0) < s.len()
}

pub open spec fn has_close(s: Seq<char>) -> bool {
    find_from(s, '}', 0) < s.len()
}

/// A trailing carriage return left by a CRLF line ending is dropped.
pub open spec fn strip_cr(l: Seq<char>) -> Seq<char> {
    if l.len() > 0 && l[l.len() - 1] == '\r' {
        l.subrange(0, l.len() - 1)
    } else {
        l
    }
}

/// The unit's text as a sequence of lines: split at newlines, with the
/// carriage return of a CRLF ending dropped and no final empty line.
pub open spec fn split_lines(s: Seq<char>) -> Seq<Seq<char>>
    decreases s.len(),
{
    if s.len() == 0 {
        Seq::empty()
    } else {
        let j = find_from(s, '\n', 0);
        if j >= s.len() {
            seq![s]
        } else {
            seq![strip_cr(s.subrange(0, j))] + split_lines(s.subrange(j + 1, s.len() as int))
        }
    }
}

fn split_acc(s: &str, out: &mut Vec<String>)
    ensures
        final(out).deep_view() == old(out).deep_view() + split_lines(s@),
    decreases s@.len(),
{
    let n = s.unicode_len();
    if n == 0 {
        proof {
            assert(out.deep_view() =~= old(out).deep_view() + split_lines(s@));
        }
        return ;
    }
    let j = find_char(s, '\n', 0);
    if j == n {
        out.push(String::from_str(s));
        proof {
            assert(out.deep_view() =~= old(out).deep_view() + split_lines(s@));
        }
    } else {
        let head: &str = if j > 0 && s.get_char(j - 1) == '\r' {
            s.substring_char(0, j - 1)
        } else {
            s.substring_char(0, j)
        };
        proof {
            let pre = s@.subrange(0, j as int);
            if j > 0 && s@[j as int - 1] == '\r' {
                assert(pre.subrange(0, j as int - 1) =~= s@.subrange(0, j as int - 1));
            }
            assert(head@ =~= strip_cr(pre));
        }
        out.push(String::from_str(head));
        let rest: &str = s.substring_char(j + 1, n);
        split_acc(rest, out);
        proof {
            assert(out.deep_view() =~= old(out).deep_view() + split_lines(s@));
        }
    }
}

/// Splits a unit's text into its lines.
pub fn split_into_lines(s: &str) -> (r: Vec<String>)
    ensures
        r.deep_view() == split_lines(s@),
{
    let mut out: Vec<String> = Vec::new();
    split_acc(s, &mut out);
    proof {
        assert(out.deep_view() =~= split_lines(s@));
    }
    out
}

/// The component of a path after its last separator: the unit's file
/// name, used only to derive the `part of` header of the generated unit.
pub open spec fn file_name_from(s: Seq<char>) -> Seq<char>
    decreases s.len(),
{
    if s.len() == 0 {
        s
    } else if s[s.len() - 1] == '/' {
        Seq::empty()
    } else {
        file_name_from(s.subrange(0, s.len() - 1)).push(s[s.len() - 1])
    }
}

proof fn lemma_file_name_suffix(s: Seq<char>, p: int)
    requires
        0 <= p <= s.len(),
        forall|k: int| p <= k < s.len() ==> s[k] != '/',
        p > 0 ==> s[p - 1] == '/',
    ensures
        file_name_from(s) == s.subrange(p, s.len() as int),
    decreases s.len(),
{
    if p == s.len() {
        if s.len() == 0 {
            assert(file_name_from(s) =~= s.subrange(p, s.len() as int));
        } else {
            assert(s[s.len() - 1] == '/');
            assert(file_name_from(s) =~= s.subrange(p, s.len() as int));
        }
    } else {
        assert(s[s.len() - 1] != '/');
        let s2 = s.subrange(0, s.len() - 1);
        lemma_file_name_suffix(s2, p);
        assert(file_name_from(s2).push(s[s.len() - 1]) =~= s.subrange(p, s.len() as int));
    }
}

fn after_last_slash(s: &str, j: usize) -> (r: usize)
    requires
        j <= s@.len(),
    ensures
        r <= j,
        forall|k: int| r <= k < j ==> s@[k] != '/',
        r > 0 ==> s@[r - 1] == '/',
    decreases j,
{
    if j > 0 && s.get_char(j - 1) != '/' {
        after_last_slash(s, j - 1)
    } else {
        j
    }
}

/// The path with a trailing `.dart` extension replaced by the generated
/// extension `.flu.dart`; a path with any other ending is unchanged.
/// A pure string transform, not a filesystem operation.
pub open spec fn replace_ext(s: Seq<char>) -> Seq<char> {
    if s.len() >= 5 && s.subrange(s.len() - 5, s.len() as int) == ".dart"@ {
        s.subrange(0, s.len() - 5) + ".flu.dart"@
    } else {
        s
    }
}

fn replace_ext_exec(s: &str) -> (r: String)
    ensures
        r@ == replace_ext(s@),
{
    let n = s.unicode_len();
    if n >= 5 && str_eq(s.substring_char(n - 5, n), ".dart") {
        let mut r = String::from_str(s.substring_char(0, n - 5));
        r.append(".flu.dart");
        r
    } else {
        String::from_str(s)
    }
}

/// The parser's state between lines.
pub ghost enum StepModel {
    /// Scanning for the trigger marker.
    Seeking,
    /// The marker was seen; the class header is expected next.
    InHeader,
    /// Inside a recognized class block, with the brace depth and the
    /// class built so far.
    InBody { depth: int, cur: ClassModel },
}

/// The parser's executable state between lines; its view is [`StepModel`].
pub enum ParseState {
    Seeking,
    InHeader,
    InBody { depth: usize, cur: DartClass },
}

impl View for ParseState {
    type V = StepModel;

    open spec fn view(&self) -> StepModel {
        match self {
            ParseState::Seeking => StepModel::Seeking,
            ParseState::InHeader => StepModel::InHeader,
            ParseState::InBody { depth, cur } => StepModel::InBody {
                depth: *depth as int,
                cur: cur@,
            },
        }
    }
}

/// The classes recognized from line `i` on, starting in state `st` with
/// the classes `acc` already recognized.
pub open spec fn parse_from(
    lines: Seq<Seq<char>>,
    i: int,
    st: StepModel,
    acc: Seq<ClassModel>,
) -> Seq<ClassModel>
    decreases lines.len() - i,
{
    if i < 0 || i >= lines.len() {
        acc
    } else {
        let raw = lines[i];
        match st {
            StepModel::Seeking => parse_from(
                lines,
                i + 1,
                if raw == "// @flu"@ {
                    StepModel::InHeader
                } else {
                    StepModel::Seeking
                },
                acc,
            ),
            StepModel::InHeader => {
                if is_flu_colon(raw) {
                    parse_from(lines, i + 1, StepModel::InHeader, acc)
                } else {
                    let l = strip_comment(raw);
                    if is_blank(l) {
                        parse_from(lines, i + 1, StepModel::InHeader, acc)
                    } else if class_header_name(l) is Some {
                        let c = ClassModel {
                            name: class_header_name(l)->0,
                            has_const_constructor: false,
                            fields: Seq::empty(),
                        };
                        if ends_brace(l) {
                            parse_from(lines, i + 1, StepModel::Seeking, acc.push(c))
                        } else {
                            parse_from(lines, i + 1, StepModel::InBody { depth: 1, cur: c }, acc)
                        }
                    } else {
                        parse_from(lines, i + 1, StepModel::Seeking, acc)
                    }
                }
            },
            StepModel::InBody { depth, cur } => {
                if is_flu_colon(raw) {
                    parse_from(lines, i + 1, st, acc)
                } else {
                    let l = strip_comment(raw);
                    if is_blank(l) {
                        parse_from(lines, i + 1, st, acc)
                    } else if depth == 1 && l == const_ctor_line(cur.name) {
                        parse_from(
                            lines,
                            i + 1,
                            StepModel::InBody {
                                depth: 1,
                                cur: ClassModel { has_const_constructor: true, ..cur },
                            },
                            acc,
                        )
                    } else if depth == 1 && field_decl(l) is Some {
                        let opts = if i >= 1 && option_payload(lines[i - 1]) is Some {
                            Some(spec_options(option_payload(lines[i - 1])->0))
                        } else {
                            None
                        };
                        let fld = FieldModel {
                            name: (field_decl(l)->0).1,
                            typ: resolve_type((field_decl(l)->0).0, opts),
                            options: opts,
                        };
                        parse_from(
                            lines,
                            i + 1,
                            StepModel::InBody {
                                depth: 1,
                                cur: ClassModel { fields: cur.fields.push(fld), ..cur },
                            },
                            acc,
                        )
                    } else {
                        let d2 = depth + (if has_open(l) {
                            1int
                        } else {
                            0int
                        }) - (if has_close(l) {
                            1int
                        } else {
                            0int
                        });
                        if d2 == 0 {
                            parse_from(lines, i + 1, StepModel::Seeking, acc.push(cur))
                        } else {
                            parse_from(lines, i + 1, StepModel::InBody { depth: d2, cur }, acc)
                        }
                    }
                }
            },
        }
    }
}

/// The classes recognized in a unit's text, in declaration order.
pub open spec fn spec_parse(content: Seq<char>) -> Seq<ClassModel> {
    parse_from(split_lines(content), 0, StepModel::Seeking, Seq::empty())
}

/// One scanned unit: its path and its recognized classes.
pub struct DartFile {
    pub path: String,
    pub classes: Vec<DartClass>,
}

impl View for DartFile {
    type V = FileModel;

    open spec fn view(&self) -> FileModel {
        FileModel { path: self.path@, classes: self.classes.deep_view() }
    }
}

fn parse_lines(lines: &Vec<String>, i: usize, st: ParseState, acc: Vec<DartClass>) -> (r: Vec<
    DartClass,
>)
    requires
        i <= lines@.len(),
        st matches ParseState::InBody { depth, cur } ==> 1 <= depth && depth <= i,
    ensures
        r.deep_view() == parse_from(lines.deep_view(), i as int, st@, acc.deep_view()),
    decreases lines@.len() - i,
{
    if i == lines.len() {
        return acc;
    }
    let raw: &String = &lines[i];
    proof {
        assert(lines.deep_view()[i as int] == raw@);
    }
    match st {
        ParseState::Seeking => {
            let nst = if str_eq(raw.as_str(), "// @flu") {
                ParseState::InHeader
            } else {
                ParseState::Seeking
            };
            parse_lines(lines, i + 1, nst, acc)
        },
        ParseState::InHeader => {
            if is_flu_colon_exec(raw.as_str()) {
                return parse_lines(lines, i + 1, ParseState::InHeader, acc);
            }
            let l = strip_comment_exec(raw.as_str());
            if is_blank_exec(l.as_str()) {
                return parse_lines(lines, i + 1, ParseState::InHeader, acc);
            }
            match class_header_exec(l.as_str()) {
                Some(name) => {
                    let ln = l.as_str().unicode_len();
                    let closed = ln > 0 && l.as_str().get_char(ln - 1) == '}';
                    let c = DartClass { name, has_const_constructor: false, fields: Vec::new() };
                    if closed {
                        let mut acc2 = acc;
                        acc2.push(c);
                        proof {
                            assert(acc2.deep_view() =~= acc.deep_view().push(c@));
                            assert(c@ =~= (ClassModel {
                                name: class_header_name(l@)->0,
                                has_const_constructor: false,
                                fields: Seq::empty(),
                            }));
                        }
                        parse_lines(lines, i + 1, ParseState::Seeking, acc2)
                    } else {
                        proof {
                            assert(c@ =~= (ClassModel {
                                name: class_header_name(l@)->0,
                                has_const_constructor: false,
                                fields: Seq::empty(),
                            }));
                        }
                        parse_lines(lines, i + 1, ParseState::InBody { depth: 1, cur: c }, acc)
                    }
                },
                None => parse_lines(lines, i + 1, ParseState::Seeking, acc),
            }
        },
        ParseState::InBody { depth, cur } => {
            if is_flu_colon_exec(raw.as_str()) {
                return parse_lines(lines, i + 1, ParseState::InBody { depth, cur }, acc);
            }
            let l = strip_comment_exec(raw.as_str());
            if is_blank_exec(l.as_str()) {
                return parse_lines(lines, i + 1, ParseState::InBody { depth, cur }, acc);
            }
            let is_ctor = if depth == 1 {
                let mut expected = String::from_str("  const _");
                expected.append(cur.name.as_str());
                expected.append("();");
                str_eq(l.as_str(), expected.as_str())
            } else {
                false
            };
            if is_ctor {
                let cur2 = DartClass { has_const_constructor: true, ..cur };
                return parse_lines(
                    lines,
                    i + 1,
                    ParseState::InBody { depth: 1, cur: cur2 },
                    acc,
                );
            }
            let fd = if depth == 1 {
                field_decl_exec(l.as_str())
            } else {
                None
            };
            match fd {
                Some((ty, fname)) => {
                    let opts: Option<FieldOptions> = match option_payload_exec(
                        lines[i - 1].as_str(),
                    ) {
                        Some(payload) => Some(FieldOptions::from_string(payload.as_str())),
                        None => None,
                    };
                    proof {
                        assert(lines.deep_view()[i as int - 1] == lines@[i as int - 1]@);
                    }
                    let typ = DartType::from_string_and_options(ty, &opts);
                    let fld = DartField { name: fname, typ, options: opts };
                    let mut cur2 = cur;
                    cur2.fields.push(fld);
                    proof {
                        assert(cur2.fields.deep_view() =~= cur.fields.deep_view().push(fld@));
                    }
                    parse_lines(lines, i + 1, ParseState::InBody { depth: 1, cur: cur2 }, acc)
                },
                None => {
                    let mut d2 = depth;
                    if find_char(l.as_str(), '{', 0) < l.as_str().unicode_len() {
                        d2 = d2 + 1;
                    }
                    if find_char(l.as_str(), '}', 0) < l.as_str().unicode_len() {
                        d2 = d2 - 1;
                    }
                    if d2 == 0 {
                        let mut acc2 = acc;
                        acc2.push(cur);
                        proof {
                            assert(acc2.deep_view() =~= acc.deep_view().push(cur@));
                        }
                        parse_lines(lines, i + 1, ParseState::Seeking, acc2)
                    } else {
                        parse_lines(lines, i + 1, ParseState::InBody { depth: d2, cur }, acc)
                    }
                },
            }
        },
    }
}

impl DartFile {
    pub fn new(path: String, classes: Vec<DartClass>) -> (r: Self)
        ensures
            r@ == (FileModel { path: path@, classes: classes.deep_view() }),
    {
        Self { path, classes }
    }

    /// Parses a unit's text, recognizing every annotated class declaration
    /// in order.
    pub fn from_string(content: &str, path: &str) -> (r: Self)
        ensures
            r@.path == path@,
            r@.classes == spec_parse(content@),
    {
        let lines = split_into_lines(content);
        let empty_acc: Vec<DartClass> = Vec::new();
        proof {
            assert(empty_acc.deep_view() =~= Seq::<ClassModel>::empty());
        }
        let classes = parse_lines(&lines, 0, ParseState::Seeking, empty_acc);
        DartFile { path: String::from_str(path), classes }
    }

    /// The identifier of the generated companion unit: the unit's path
    /// with the source extension replaced by the generated one. A pure
    /// string transform, not a filesystem operation.
    pub fn generated_path(&self) -> (r: String)
        ensures
            r@ == replace_ext(self@.path),
    {
        replace_ext_exec(self.path.as_str())
    }

    /// The unit's file name: the component of its path after the last
    /// separator.
    pub fn file_name(&self) -> (r: String)
        ensures
            r@ == file_name_from(self@.path),
    {
        let n = self.path.as_str().unicode_len();
        let p = after_last_slash(self.path.as_str(), n);
        let r = String::from_str(self.path.as_str().substring_char(p, n));
        proof {
            lemma_file_name_suffix(self.path@, p as int);
        }
        r
    }
}

} // verus!
