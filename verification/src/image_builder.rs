//! Building images from Dockerfiles: the parser, the effect of each
//! instruction, and the plan of a build.

use crate::ids::{is_id_text, random_id};
use crate::image::{
    clone_strings, instructions_view, DockerfileInstruction, Image, ImageConfig,
    ImageConfigView, ImageState, ImageView, InstructionView,
};
use crate::jail::{opt_view};
use crate::path::{join, joined};
use crate::number::{decimal, decimal_chars, parse_u16, parse_upto};
use crate::strmap::{StringMap};
use crate::text::{
    chars_of, concat2, concat3, extend, has_prefix, is_text, join_strings, joined_with, lines,
    replace, replaced, slice, split, split_at_char, split_lines, split_once, split_once_at,
    split_words, starts_with, str_eq, str_views, string_of, strings_of, strip_leading,
    strip_leading_char, to_upper, trim, trimmed, upper, views, words,
};
use vstd::prelude::*;

verus! {

/// Why building an image failed.
#[derive(Debug, PartialEq, Eq)]
pub enum ImageError {
    ParseError(String),
    Io(String),
    Zfs(String),
    BuildFailed(String),
}

impl ImageError {
    /// The error as one line of text.
    pub open spec fn text(self) -> Seq<char> {
        match self {
            ImageError::ParseError(m) => "Parse error: "@ + m@,
            ImageError::Io(m) => "IO error: "@ + m@,
            ImageError::Zfs(m) => "ZFS error: "@ + m@,
            ImageError::BuildFailed(m) => "Build failed: "@ + m@,
        }
    }

    /// The error as one line of text.
    pub fn to_string(&self) -> (r: String)
        ensures
            r@ == self.text(),
    {
        match self {
            ImageError::ParseError(m) => concat2("Parse error: ", m.as_str()),
            ImageError::Io(m) => concat2("IO error: ", m.as_str()),
            ImageError::Zfs(m) => concat2("ZFS error: ", m.as_str()),
            ImageError::BuildFailed(m) => concat2("Build failed: ", m.as_str()),
        }
    }
}

/// How far a build has come.
#[derive(Debug, Clone, Copy, PartialEq, Eq, Structural)]
pub enum BuildStatus {
    Building,
    Failed,
    Complete,
}

/// One progress report of a build.
#[derive(Debug, PartialEq, Eq)]
pub struct ImageBuildProgress {
    pub image_id: String,
    pub step: usize,
    pub total_steps: usize,
    pub current_instruction: String,
    pub status: BuildStatus,
}

impl ImageBuildProgress {
    /// Whether the report is of the build `id`, at step `step` of `total`,
    /// and says `line` and `status`.
    pub open spec fn says(
        self,
        id: Seq<char>,
        step: int,
        total: int,
        line: Seq<char>,
        status: BuildStatus,
    ) -> bool {
        self.image_id@ == id && self.step == step && self.total_steps == total
            && self.current_instruction@ == line && self.status == status
    }
}

// ---------------------------------------------------------------------------
// Build arguments
// ---------------------------------------------------------------------------

/// `line` after each build argument, in order, has replaced `${KEY}` and
/// then `$KEY`.
pub open spec fn substituted(line: Seq<char>, args: Seq<(Seq<char>, Seq<char>)>) -> Seq<char>
    decreases args.len(),
{
    if args.len() == 0 {
        line
    } else {
        let prev = substituted(line, args.drop_last());
        let (k, v) = args.last();
        replaced(replaced(prev, "${"@ + k + "}"@, v), "$"@ + k, v)
    }
}

// ---------------------------------------------------------------------------
// One instruction
// ---------------------------------------------------------------------------

/// What a JSON text holds if it is an array of strings, as `serde_json`
/// reads it.
pub uninterp spec fn json_string_list(text: Seq<char>) -> Option<Seq<Seq<char>>>;

/// The error of `serde_json`, carried through without a look inside.
///
/// Trusted: the type `serde_json::Error` itself; nothing is claimed of
/// its values.
#[verifier::external_type_specification]
#[verifier::external_body]
pub struct ExJsonError(serde_json::Error);

/// Reads a JSON array of strings.
///
/// Trusted: `serde_json::from_str` at the type `Vec<String>`, whose result
/// depends on the text alone.
#[verifier::external_body]
fn read_json_string_list(text: &str) -> (r: Result<Vec<String>, serde_json::Error>)
    ensures
        match r {
            Ok(v) => json_string_list(text@) == Some(str_views(v@)),
            Err(_) => json_string_list(text@) is None,
        },
{
    serde_json::from_str::<Vec<String>>(text)
}

/// The keyword of a line: what stands before its first space, in capitals.
pub open spec fn keyword_of(line: Seq<char>) -> Seq<char> {
    upper(split_once(line, ' ')[0])
}

/// The arguments of a line: what stands after its first space, trimmed.
pub open spec fn args_of(line: Seq<char>) -> Seq<char> {
    let p = split_once(line, ' ');
    if p.len() > 1 {
        trimmed(p[1])
    } else {
        Seq::empty()
    }
}

/// Word `i` of `w`, if there is one.
pub open spec fn nth_word(w: Seq<Seq<char>>, i: int) -> Option<Seq<char>> {
    if 0 <= i < w.len() {
        Some(w[i])
    } else {
        None
    }
}

/// The map made of the first `k` pairs of neighbouring words.
pub open spec fn pairs_upto(w: Seq<Seq<char>>, k: int) -> Map<Seq<char>, Seq<char>>
    decreases k,
{
    if k <= 0 {
        Map::empty()
    } else {
        pairs_upto(w, k - 1).insert(w[2 * (k - 1)], w[2 * (k - 1) + 1])
    }
}

/// The map made of the words taken two by two as key and value; a last word
/// without a partner is left out.
pub open spec fn word_pairs(w: Seq<Seq<char>>) -> Map<Seq<char>, Seq<char>> {
    pairs_upto(w, w.len() as int / 2)
}

/// The first `n` words read as ports, or the complaint about the first word
/// that is no port.
pub open spec fn ports_upto(w: Seq<Seq<char>>, n: int) -> Result<Seq<u16>, Seq<char>>
    decreases n,
{
    if n <= 0 {
        Ok(Seq::empty())
    } else {
        match ports_upto(w, n - 1) {
            Err(e) => Err(e),
            Ok(ps) => match parse_upto(w[n - 1], 65535) {
                Some(p) => Ok(ps.push(p as u16)),
                None => Err("Invalid port: "@ + w[n - 1]),
            },
        }
    }
}

/// Whether arguments are written as a JSON array.
pub open spec fn is_exec_form(args: Seq<char>) -> bool {
    args.len() > 0 && args[0] == '['
}

/// The command that arguments stand for: the strings of the JSON array, or
/// the arguments as one string.
pub open spec fn command_of(args: Seq<char>, list: Option<Seq<Seq<char>>>, complaint: Seq<char>)
    -> Result<Seq<Seq<char>>, Seq<char>> {
    if is_exec_form(args) {
        match list {
            Some(l) => Ok(l),
            None => Err(complaint),
        }
    } else {
        Ok(seq![args])
    }
}

/// Whether the keyword's arguments may be a JSON array.
pub open spec fn takes_command(keyword: Seq<char>) -> bool {
    keyword == "CMD"@ || keyword == "ENTRYPOINT"@ || keyword == "SHELL"@
}

/// The instruction that a keyword and its arguments stand for, or the
/// complaint. `list` is what the arguments hold as a JSON array of strings;
/// it is looked at only for `CMD`, `ENTRYPOINT` and `SHELL` in array form.
pub open spec fn parsed(keyword: Seq<char>, args: Seq<char>, list: Option<Seq<Seq<char>>>)
    -> Result<InstructionView, Seq<char>> {
    let w = words(args);
    if keyword == "FROM"@ {
        Ok(InstructionView::From(args))
    } else if keyword == "BOOTSTRAP"@ {
        Ok(
            InstructionView::Bootstrap {
                version: nth_word(w, 0),
                architecture: nth_word(w, 1),
                mirror: nth_word(w, 2),
            },
        )
    } else if keyword == "RUN"@ {
        Ok(InstructionView::Run(args))
    } else if keyword == "COPY"@ {
        if w.len() < 2 {
            Err("COPY requires source and destination"@)
        } else {
            Ok(InstructionView::Copy { from: None, src: w[0], dest: w.last() })
        }
    } else if keyword == "ADD"@ {
        if w.len() < 2 {
            Err("ADD requires source and destination"@)
        } else {
            Ok(InstructionView::Add { src: w[0], dest: w.last() })
        }
    } else if keyword == "WORKDIR"@ {
        Ok(InstructionView::WorkDir(args))
    } else if keyword == "ENV"@ {
        Ok(InstructionView::Env(word_pairs(w)))
    } else if keyword == "EXPOSE"@ {
        match ports_upto(w, w.len() as int) {
            Ok(ps) => Ok(InstructionView::Expose(ps)),
            Err(e) => Err(e),
        }
    } else if keyword == "USER"@ {
        Ok(InstructionView::User(args))
    } else if keyword == "VOLUME"@ {
        Ok(InstructionView::Volume(w))
    } else if keyword == "CMD"@ {
        match command_of(args, list, "Invalid CMD syntax"@) {
            Ok(c) => Ok(InstructionView::Cmd(c)),
            Err(e) => Err(e),
        }
    } else if keyword == "ENTRYPOINT"@ {
        match command_of(args, list, "Invalid ENTRYPOINT syntax"@) {
            Ok(c) => Ok(InstructionView::Entrypoint(c)),
            Err(e) => Err(e),
        }
    } else if keyword == "LABEL"@ {
        Ok(InstructionView::Label(word_pairs(w)))
    } else if keyword == "ARG"@ {
        Ok(InstructionView::Run("# ARG "@ + args))
    } else if keyword == "STOPSIGNAL"@ {
        Ok(InstructionView::Label(Map::empty().insert("stop_signal"@, args)))
    } else if keyword == "SHELL"@ {
        match command_of(args, list, "Invalid SHELL syntax"@) {
            Ok(c) => Ok(
                InstructionView::Label(Map::empty().insert("shell"@, joined_with(c, " "@))),
            ),
            Err(e) => Err(e),
        }
    } else {
        Err("Unknown instruction: "@ + keyword)
    }
}

/// An optional list of strings as a value.
pub open spec fn list_view(o: Option<Vec<String>>) -> Option<Seq<Seq<char>>> {
    match o {
        Some(v) => Some(str_views(v@)),
        None => None,
    }
}

/// Word `i` as a string, if there is one.
fn word_at(w: &Vec<Vec<char>>, i: usize) -> (r: Option<String>)
    ensures
        crate::jail::opt_view(r) == nth_word(views(w@), i as int),
{
    if i < w.len() {
        assert(views(w@)[i as int] == w@[i as int]@);
        Some(string_of(&w[i]))
    } else {
        None
    }
}

/// The words two by two as a map.
fn pair_up(w: &Vec<Vec<char>>) -> (m: StringMap)
    ensures
        m@ == word_pairs(views(w@)),
{
    let mut m = StringMap::new();
    let n: usize = w.len() / 2;
    let mut k: usize = 0;
    while k < n
        invariant
            k <= n,
            n == w.len() / 2,
            m@ == pairs_upto(views(w@), k as int),
        decreases n - k,
    {
        assert(views(w@)[2 * k as int] == w@[2 * k as int]@);
        assert(views(w@)[2 * k as int + 1] == w@[2 * k as int + 1]@);
        m.insert(string_of(&w[2 * k]), string_of(&w[2 * k + 1]));
        k += 1;
    }
    m
}

/// The words as ports.
fn read_ports(w: &Vec<Vec<char>>) -> (r: Result<Vec<u16>, String>)
    ensures
        match ports_upto(views(w@), w.len() as int) {
            Ok(ps) => r matches Ok(v) && v@ == ps,
            Err(e) => r matches Err(m) && m@ == e,
        },
{
    let mut out: Vec<u16> = Vec::new();
    let mut i: usize = 0;
    while i < w.len()
        invariant
            i <= w.len(),
            ports_upto(views(w@), i as int) == Ok::<Seq<u16>, Seq<char>>(out@),
        decreases w.len() - i,
    {
        assert(views(w@)[i as int] == w@[i as int]@);
        match parse_u16(&w[i]) {
            Some(p) => {
                out.push(p);
                i += 1;
            },
            None => {
                let m = string_of(&w[i]);
                let e = concat2("Invalid port: ", m.as_str());
                proof {
                    lemma_ports_error_stays(views(w@), i as int + 1, w.len() as int);
                }
                return Err(e);
            },
        }
    }
    Ok(out)
}

/// Once a word is no port, reading more words gives the same complaint.
pub proof fn lemma_ports_error_stays(w: Seq<Seq<char>>, n: int, m: int)
    requires
        0 <= n <= m,
        ports_upto(w, n) is Err,
    ensures
        ports_upto(w, m) == ports_upto(w, n),
    decreases m - n,
{
    if n < m {
        lemma_ports_error_stays(w, n, m - 1);
    }
}

/// The command that the arguments stand for.
fn read_command(args: &Vec<char>, list: Option<Vec<String>>, complaint: &str) -> (r: Result<
    Vec<String>,
    String,
>)
    ensures
        match command_of(args@, list_view(list), complaint@) {
            Ok(c) => r matches Ok(v) && str_views(v@) == c,
            Err(e) => r matches Err(m) && m@ == e,
        },
{
    if args.len() > 0 && args[0] == '[' {
        match list {
            Some(l) => Ok(l),
            None => Err(complaint.to_owned()),
        }
    } else {
        let mut v: Vec<String> = Vec::new();
        v.push(string_of(args));
        assert(str_views(v@) =~= seq![args@]);
        Ok(v)
    }
}

/// A map with one entry.
fn single(key: &str, value: String) -> (m: StringMap)
    ensures
        m@ == Map::<Seq<char>, Seq<char>>::empty().insert(key@, value@),
{
    let mut m = StringMap::new();
    m.insert(key.to_owned(), value);
    m
}

/// Makes the instruction that a keyword in capitals and its trimmed
/// arguments stand for. `list` is what the arguments hold as a JSON array of
/// strings, if they are one; it is read only for `CMD`, `ENTRYPOINT` and
/// `SHELL` in array form.
pub fn instruction_from(keyword: &str, args: &str, list: Option<Vec<String>>) -> (r: Result<
    DockerfileInstruction,
    ImageError,
>)
    ensures
        match parsed(keyword@, args@, list_view(list)) {
            Ok(iv) => r matches Ok(i) && i@ == iv,
            Err(e) => r matches Err(ImageError::ParseError(m)) && m@ == e,
        },
{
    let k = chars_of(keyword);
    let a = chars_of(args);
    let w = split_words(&a);
    if is_text(&k, "FROM") {
        Ok(DockerfileInstruction::From(args.to_owned()))
    } else if is_text(&k, "BOOTSTRAP") {
        Ok(
            DockerfileInstruction::Bootstrap {
                version: word_at(&w, 0),
                architecture: word_at(&w, 1),
                mirror: word_at(&w, 2),
            },
        )
    } else if is_text(&k, "RUN") {
        Ok(DockerfileInstruction::Run(args.to_owned()))
    } else if is_text(&k, "COPY") {
        if w.len() < 2 {
            Err(ImageError::ParseError("COPY requires source and destination".to_owned()))
        } else {
            assert(views(w@)[0] == w@[0]@);
            assert(views(w@).last() == w@[w.len() - 1]@);
            Ok(
                DockerfileInstruction::Copy {
                    from: None,
                    src: string_of(&w[0]),
                    dest: string_of(&w[w.len() - 1]),
                },
            )
        }
    } else if is_text(&k, "ADD") {
        if w.len() < 2 {
            Err(ImageError::ParseError("ADD requires source and destination".to_owned()))
        } else {
            assert(views(w@)[0] == w@[0]@);
            assert(views(w@).last() == w@[w.len() - 1]@);
            Ok(
                DockerfileInstruction::Add {
                    src: string_of(&w[0]),
                    dest: string_of(&w[w.len() - 1]),
                },
            )
        }
    } else if is_text(&k, "WORKDIR") {
        Ok(DockerfileInstruction::WorkDir(args.to_owned()))
    } else if is_text(&k, "ENV") {
        Ok(DockerfileInstruction::Env(pair_up(&w)))
    } else if is_text(&k, "EXPOSE") {
        match read_ports(&w) {
            Ok(ps) => Ok(DockerfileInstruction::Expose(ps)),
            Err(e) => Err(ImageError::ParseError(e)),
        }
    } else if is_text(&k, "USER") {
        Ok(DockerfileInstruction::User(args.to_owned()))
    } else if is_text(&k, "VOLUME") {
        Ok(DockerfileInstruction::Volume(strings_of(&w)))
    } else if is_text(&k, "CMD") {
        match read_command(&a, list, "Invalid CMD syntax") {
            Ok(c) => Ok(DockerfileInstruction::Cmd(c)),
            Err(e) => Err(ImageError::ParseError(e)),
        }
    } else if is_text(&k, "ENTRYPOINT") {
        match read_command(&a, list, "Invalid ENTRYPOINT syntax") {
            Ok(c) => Ok(DockerfileInstruction::Entrypoint(c)),
            Err(e) => Err(ImageError::ParseError(e)),
        }
    } else if is_text(&k, "LABEL") {
        Ok(DockerfileInstruction::Label(pair_up(&w)))
    } else if is_text(&k, "ARG") {
        Ok(DockerfileInstruction::Run(concat2("# ARG ", args)))
    } else if is_text(&k, "STOPSIGNAL") {
        Ok(DockerfileInstruction::Label(single("stop_signal", args.to_owned())))
    } else if is_text(&k, "SHELL") {
        match read_command(&a, list, "Invalid SHELL syntax") {
            Ok(c) => Ok(DockerfileInstruction::Label(single("shell", join_strings(&c, " ")))),
            Err(e) => Err(ImageError::ParseError(e)),
        }
    } else {
        Err(ImageError::ParseError(concat2("Unknown instruction: ", keyword)))
    }
}

/// What a line of a Dockerfile stands for once the build arguments are
/// filled in.
pub open spec fn line_result(args: Seq<(Seq<char>, Seq<char>)>, line: Seq<char>) -> Result<
    InstructionView,
    Seq<char>,
> {
    let s = substituted(line, args);
    parsed(keyword_of(s), args_of(s), json_string_list(args_of(s)))
}

/// Whether a trimmed line holds an instruction: it is not empty and no
/// comment.
pub open spec fn is_instruction_line(t: Seq<char>) -> bool {
    t.len() > 0 && t[0] != '#'
}

/// A line as it is read: a backslash at its end is taken off and gives a
/// space. Lines are not joined.
pub open spec fn unfolded(t: Seq<char>) -> Seq<char> {
    if t.len() > 0 && t.last() == '\\' {
        t.drop_last().push(' ')
    } else {
        t
    }
}

/// The keyword of a line once the build arguments are filled in.
pub open spec fn line_keyword(args: Seq<(Seq<char>, Seq<char>)>, line: Seq<char>) -> Seq<char> {
    keyword_of(substituted(line, args))
}

/// The instructions of the first `n` lines that are stored, or the
/// complaint about the first line that cannot be read, with its number.
/// An `ARG` line is read and not stored.
pub open spec fn parsed_lines(args: Seq<(Seq<char>, Seq<char>)>, ls: Seq<Seq<char>>, n: int)
    -> Result<Seq<InstructionView>, Seq<char>>
    decreases n,
{
    if n <= 0 {
        Ok(Seq::empty())
    } else {
        match parsed_lines(args, ls, n - 1) {
            Err(e) => Err(e),
            Ok(is) => {
                let t = trimmed(ls[n - 1]);
                if !is_instruction_line(t) {
                    Ok(is)
                } else {
                    match line_result(args, unfolded(t)) {
                        Ok(i) => if line_keyword(args, unfolded(t)) == "ARG"@ {
                            Ok(is)
                        } else {
                            Ok(is.push(i))
                        },
                        Err(m) => Err("Line "@ + decimal(n as nat) + ": Parse error: "@ + m),
                    }
                }
            },
        }
    }
}

/// The keyword of the first of the first `n` lines that holds an
/// instruction, if one of them does.
pub open spec fn opening(args: Seq<(Seq<char>, Seq<char>)>, ls: Seq<Seq<char>>, n: int) -> Option<
    Seq<char>,
>
    decreases n,
{
    if n <= 0 {
        None
    } else {
        match opening(args, ls, n - 1) {
            Some(k) => Some(k),
            None => {
                let t = trimmed(ls[n - 1]);
                if is_instruction_line(t) {
                    Some(line_keyword(args, unfolded(t)))
                } else {
                    None
                }
            },
        }
    }
}

/// The instruction chain of a Dockerfile. The first line that is neither
/// blank nor a comment has to be a `FROM`; `FROM scratch` stands for no
/// base and is left out of the chain, and so is every `ARG`.
pub open spec fn parsed_file(args: Seq<(Seq<char>, Seq<char>)>, text: Seq<char>) -> Result<
    Seq<InstructionView>,
    Seq<char>,
> {
    let ls = lines(text);
    match parsed_lines(args, ls, ls.len() as int) {
        Err(e) => Err(e),
        Ok(is) => match opening(args, ls, ls.len() as int) {
            None => Ok(is),
            Some(k) => if k != "FROM"@ {
                Err("Dockerfile must start with FROM instruction"@)
            } else if is.len() > 0 && is[0] == InstructionView::From("scratch"@) {
                Ok(is.drop_first())
            } else {
                Ok(is)
            },
        },
    }
}

/// Once a line cannot be read, reading more lines gives the same complaint.
pub proof fn lemma_lines_error_stays(
    args: Seq<(Seq<char>, Seq<char>)>,
    ls: Seq<Seq<char>>,
    n: int,
    m: int,
)
    requires
        0 <= n <= m,
        parsed_lines(args, ls, n) is Err,
    ensures
        parsed_lines(args, ls, m) == parsed_lines(args, ls, n),
    decreases m - n,
{
    if n < m {
        lemma_lines_error_stays(args, ls, n, m - 1);
    }
}

/// The base image that a Dockerfile names, looking at lines from `i` on: the
/// first word after `FROM` on the first line that holds an instruction.
/// Lines that begin with `FROM` without a space after it are passed over.
pub open spec fn from_in(ls: Seq<Seq<char>>, i: int) -> Option<Seq<char>>
    decreases ls.len() - i,
{
    if i < 0 || i >= ls.len() {
        None
    } else {
        let t = trimmed(ls[i]);
        if t.len() == 0 || t[0] == '#' {
            from_in(ls, i + 1)
        } else if has_prefix(upper(t), "FROM "@) && words(t.skip(5)).len() > 0 {
            Some(words(t.skip(5))[0])
        } else if has_prefix(upper(t), "FROM"@) {
            from_in(ls, i + 1)
        } else {
            None
        }
    }
}

/// Finds the base image that a Dockerfile names.
pub fn parse_from_instruction(dockerfile: &str) -> (r: Result<String, &'static str>)
    ensures
        match from_in(lines(dockerfile@), 0) {
            Some(n) => r matches Ok(s) && s@ == n,
            None => r matches Err(e) && e@ == "No FROM instruction found"@,
        },
{
    let ls = split_lines(&chars_of(dockerfile));
    let from_space = chars_of("FROM ");
    let from = chars_of("FROM");
    let mut i: usize = 0;
    while i < ls.len()
        invariant
            i <= ls.len(),
            views(ls@) == lines(dockerfile@),
            from_space@ == "FROM "@,
            from@ == "FROM"@,
            from_in(lines(dockerfile@), i as int) == from_in(lines(dockerfile@), 0),
        decreases ls.len() - i,
    {
        assert(views(ls@)[i as int] == ls@[i as int]@);
        let t = trim(&ls[i]);
        if !(t.len() == 0 || t[0] == '#') {
            let up = to_upper(&t);
            if starts_with(&up, &from_space) {
                proof {
                    reveal_strlit("FROM ");
                    assert("FROM "@.len() == 5);
                }
                let rest = slice(&t, 5, t.len());
                assert(rest@ =~= t@.skip(5));
                let w = split_words(&rest);
                if w.len() > 0 {
                    assert(views(w@)[0] == w@[0]@);
                    return Ok(string_of(&w[0]));
                }
            }
            if !starts_with(&up, &from) {
                return Err("No FROM instruction found");
            }
        }
        i += 1;
    }
    Err("No FROM instruction found")
}

/// Builds images from Dockerfiles.
#[derive(Debug)]
pub struct ImageBuilder {
    /// The dataset below which images live, such as `zroot/kawakaze/images`.
    pub base_dataset: String,
    /// Values for `$NAME` and `${NAME}` in the Dockerfile.
    pub build_args: StringMap,
    /// The directory that `COPY` and `ADD` read from.
    pub build_context: String,
}

impl ImageBuilder {
    /// A builder without build arguments, reading from the current
    /// directory.
    pub fn new(base_dataset: String) -> (r: ImageBuilder)
        ensures
            r.base_dataset@ == base_dataset@,
            r.build_args.pairs() == Seq::<(Seq<char>, Seq<char>)>::empty(),
            r.build_context@ == "."@,
    {
        ImageBuilder {
            base_dataset,
            build_args: StringMap::new(),
            build_context: ".".to_owned(),
        }
    }

    /// A builder for the images of a pool, which live below
    /// `<pool>/images`.
    pub fn for_pool(pool: &str) -> (r: ImageBuilder)
        ensures
            r.base_dataset@ == pool@ + "/images"@,
            r.build_args.pairs() == Seq::<(Seq<char>, Seq<char>)>::empty(),
            r.build_context@ == "."@,
    {
        ImageBuilder::new(concat2(pool, "/images"))
    }

    /// Sets the build arguments.
    pub fn with_build_args(self, args: StringMap) -> (r: ImageBuilder)
        ensures
            r.base_dataset@ == self.base_dataset@,
            r.build_args.pairs() == args.pairs(),
            r.build_context@ == self.build_context@,
    {
        let mut b = self;
        b.build_args = args;
        b
    }

    /// Sets the directory that `COPY` and `ADD` read from.
    pub fn with_build_context(self, context: String) -> (r: ImageBuilder)
        ensures
            r.base_dataset@ == self.base_dataset@,
            r.build_args.pairs() == self.build_args.pairs(),
            r.build_context@ == context@,
    {
        let mut b = self;
        b.build_context = context;
        b
    }

    /// Fills the build arguments into a line: for each argument in turn,
    /// `${KEY}` and then `$KEY` are replaced by its value.
    pub fn substitute_build_args(&self, line: &str) -> (r: String)
        ensures
            r@ == substituted(line@, self.build_args.pairs()),
    {
        let mut cur = chars_of(line);
        let n = self.build_args.len();
        let mut i: usize = 0;
        let ghost all = self.build_args.pairs();
        assert(all.take(0) =~= Seq::<(Seq<char>, Seq<char>)>::empty());
        while i < n
            invariant
                i <= n,
                n == all.len(),
                all == self.build_args.pairs(),
                cur@ == substituted(line@, all.take(i as int)),
            decreases n - i,
        {
            let key = self.build_args.key_at(i);
            let value = chars_of(self.build_args.value_at(i).as_str());
            let braced = chars_of(concat3("${", key.as_str(), "}").as_str());
            let plain = chars_of(concat2("$", key.as_str()).as_str());
            proof {
                reveal_strlit("${");
                reveal_strlit("$");
                assert(braced@.len() > 0);
                assert(plain@.len() > 0);
                let next = all.take(i + 1);
                assert(next.drop_last() =~= all.take(i as int));
                assert(next.last() == all[i as int]);
            }
            let first = replace(&cur, &braced, &value);
            cur = replace(&first, &plain, &value);
            i += 1;
        }
        assert(all.take(n as int) =~= all);
        string_of(&cur)
    }

    /// Reads one line of a Dockerfile.
    pub fn parse_instruction(&self, line: &str) -> (r: Result<DockerfileInstruction, ImageError>)
        ensures
            match line_result(self.build_args.pairs(), line@) {
                Ok(iv) => r matches Ok(i) && i@ == iv,
                Err(e) => r matches Err(ImageError::ParseError(m)) && m@ == e,
            },
    {
        let sub = self.substitute_build_args(line);
        let v = chars_of(sub.as_str());
        let parts = split_once_at(&v, ' ');
        assert(views(parts@)[0] == parts@[0]@);
        let keyword = to_upper(&parts[0]);
        let args: Vec<char> = if parts.len() > 1 {
            assert(views(parts@)[1] == parts@[1]@);
            trim(&parts[1])
        } else {
            Vec::new()
        };
        let args_text = string_of(&args);
        let wants = is_text(&keyword, "CMD") || is_text(&keyword, "ENTRYPOINT") || is_text(
            &keyword,
            "SHELL",
        );
        let list: Option<Vec<String>> = if wants && args.len() > 0 && args[0] == '[' {
            match read_json_string_list(args_text.as_str()) {
                Ok(l) => Some(l),
                Err(_) => None,
            }
        } else {
            None
        };
        proof {
            lemma_list_matters_only_for_commands(
                keyword@,
                args@,
                list_view(list),
                json_string_list(args@),
            );
        }
        let keyword_text = string_of(&keyword);
        instruction_from(keyword_text.as_str(), args_text.as_str(), list)
    }

    /// The keyword of a line: what stands before its first space once the
    /// build arguments are filled in, in capitals.
    pub fn keyword(&self, line: &str) -> (r: String)
        ensures
            r@ == line_keyword(self.build_args.pairs(), line@),
    {
        let sub = self.substitute_build_args(line);
        let v = chars_of(sub.as_str());
        let parts = split_once_at(&v, ' ');
        assert(views(parts@).len() == parts@.len());
        assert(split_once(v@, ' ').len() >= 1);
        assert(views(parts@)[0] == parts@[0]@);
        string_of(&to_upper(&parts[0]))
    }

    /// Reads a Dockerfile into its instruction chain.
    pub fn parse_dockerfile(&self, dockerfile: &str) -> (r: Result<
        Vec<DockerfileInstruction>,
        ImageError,
    >)
        ensures
            match parsed_file(self.build_args.pairs(), dockerfile@) {
                Ok(is) => r matches Ok(v) && instructions_view(v@) == is,
                Err(e) => r matches Err(ImageError::ParseError(m)) && m@ == e,
            },
    {
        let ls = split_lines(&chars_of(dockerfile));
        let ghost pairs = self.build_args.pairs();
        let ghost sl = lines(dockerfile@);
        let mut out: Vec<DockerfileInstruction> = Vec::new();
        let mut opens_with_from: Option<bool> = None;
        let mut i: usize = 0;
        assert(instructions_view(out@) =~= Seq::<InstructionView>::empty());
        while i < ls.len()
            invariant
                i <= ls.len(),
                views(ls@) == sl,
                sl == lines(dockerfile@),
                pairs == self.build_args.pairs(),
                parsed_lines(pairs, sl, i as int) == Ok::<Seq<InstructionView>, Seq<char>>(
                    instructions_view(out@),
                ),
                match opening(pairs, sl, i as int) {
                    Some(k) => opens_with_from == Some(k == "FROM"@),
                    None => opens_with_from is None,
                },
            decreases ls.len() - i,
        {
            assert(views(ls@)[i as int] == ls@[i as int]@);
            let t = trim(&ls[i]);
            if t.len() > 0 && t[0] != '#' {
                let text = string_of(&unfold(&t));
                let keyword = self.keyword(text.as_str());
                if opens_with_from.is_none() {
                    opens_with_from = Some(str_eq(keyword.as_str(), "FROM"));
                }
                match self.parse_instruction(text.as_str()) {
                    Ok(instr) => {
                        if !str_eq(keyword.as_str(), "ARG") {
                            let ghost before = instructions_view(out@);
                            let ghost iv = instr@;
                            out.push(instr);
                            assert(instructions_view(out@) =~= before.push(iv));
                        }
                    },
                    Err(e) => {
                        let mut msg: Vec<char> = chars_of("Line ");
                        extend(&mut msg, &decimal_chars((i + 1) as u64));
                        extend(&mut msg, &chars_of(": "));
                        extend(&mut msg, &chars_of(e.to_string().as_str()));
                        proof {
                            assert(parsed_lines(pairs, sl, i + 1) is Err);
                            lemma_lines_error_stays(pairs, sl, i + 1, sl.len() as int);
                            reveal_strlit(": Parse error: ");
                            reveal_strlit(": ");
                            reveal_strlit("Parse error: ");
                            assert(": Parse error: "@ =~= ": "@ + "Parse error: "@);
                            assert(msg@ =~= parsed_lines(pairs, sl, i + 1)->Err_0);
                        }
                        return Err(ImageError::ParseError(string_of(&msg)));
                    },
                }
            }
            i += 1;
        }
        match opens_with_from {
            None => Ok(out),
            Some(false) => Err(
                ImageError::ParseError("Dockerfile must start with FROM instruction".to_owned()),
            ),
            Some(true) => {
                let scratch = out.len() > 0 && match &out[0] {
                    DockerfileInstruction::From(name) => str_eq(name.as_str(), "scratch"),
                    _ => false,
                };
                if scratch {
                    let ghost before = instructions_view(out@);
                    out.remove(0);
                    assert(instructions_view(out@) =~= before.drop_first());
                }
                Ok(out)
            },
        }
    }
}

/// Takes the backslash at the end of a line off.
fn unfold(t: &Vec<char>) -> (r: Vec<char>)
    ensures
        r@ == unfolded(t@),
{
    if t.len() > 0 && t[t.len() - 1] == '\\' {
        let mut r = slice(t, 0, t.len() - 1);
        r.push(' ');
        assert(r@ =~= t@.drop_last().push(' '));
        r
    } else {
        let r = slice(t, 0, t.len());
        assert(r@ =~= t@);
        r
    }
}

/// For keywords other than `CMD`, `ENTRYPOINT` and `SHELL`, and for
/// arguments that are not in array form, the JSON reading of the arguments
/// does not matter.
pub proof fn lemma_list_matters_only_for_commands(
    keyword: Seq<char>,
    args: Seq<char>,
    given: Option<Seq<Seq<char>>>,
    actual: Option<Seq<Seq<char>>>,
)
    requires
        (takes_command(keyword) && is_exec_form(args)) ==> given == actual,
    ensures
        parsed(keyword, args, given) == parsed(keyword, args, actual),
{
}

/// The first line that is neither blank nor a comment decides: if its
/// keyword is not `FROM`, the Dockerfile is rejected.
pub proof fn lemma_first_instruction_must_be_from(
    args: Seq<(Seq<char>, Seq<char>)>,
    text: Seq<char>,
    first: int,
)
    requires
        0 <= first < lines(text).len(),
        forall|j: int| 0 <= j < first ==> !is_instruction_line(trimmed(#[trigger] lines(text)[j])),
        is_instruction_line(trimmed(lines(text)[first])),
        line_keyword(args, unfolded(trimmed(lines(text)[first]))) != "FROM"@,
    ensures
        parsed_file(args, text) is Err,
{
    let ls = lines(text);
    lemma_opening_is_first(args, ls, first, ls.len() as int);
}

/// The keyword of the first line that holds an instruction is the opening
/// of every longer run of lines.
pub proof fn lemma_opening_is_first(
    args: Seq<(Seq<char>, Seq<char>)>,
    ls: Seq<Seq<char>>,
    first: int,
    n: int,
)
    requires
        0 <= first < n,
        forall|j: int| 0 <= j < first ==> !is_instruction_line(trimmed(#[trigger] ls[j])),
        is_instruction_line(trimmed(ls[first])),
    ensures
        opening(args, ls, n) == Some(line_keyword(args, unfolded(trimmed(ls[first])))),
    decreases n,
{
    if n == first + 1 {
        lemma_no_opening_before(args, ls, first);
    } else {
        lemma_opening_is_first(args, ls, first, n - 1);
    }
}

/// Lines without an instruction have no opening.
pub proof fn lemma_no_opening_before(args: Seq<(Seq<char>, Seq<char>)>, ls: Seq<Seq<char>>, n: int)
    requires
        forall|j: int| 0 <= j < n ==> !is_instruction_line(trimmed(#[trigger] ls[j])),
    ensures
        opening(args, ls, n) is None,
    decreases n,
{
    if n > 0 {
        lemma_no_opening_before(args, ls, n - 1);
    }
}

/// Only the keyword `FROM` gives a `From` instruction.
pub proof fn lemma_only_from_gives_from(
    keyword: Seq<char>,
    args: Seq<char>,
    list: Option<Seq<Seq<char>>>,
)
    requires
        keyword != "FROM"@,
    ensures
        parsed(keyword, args, list) matches Ok(i) ==> !(i is From),
{
}

/// `FROM scratch` alone gives an empty instruction chain.
pub proof fn lemma_from_scratch_is_empty(args: Seq<(Seq<char>, Seq<char>)>, text: Seq<char>)
    requires
        lines(text).len() == 1,
        is_instruction_line(trimmed(lines(text)[0])),
        line_result(args, unfolded(trimmed(lines(text)[0]))) == Ok::<InstructionView, Seq<char>>(
            InstructionView::From("scratch"@),
        ),
    ensures
        parsed_file(args, text) == Ok::<Seq<InstructionView>, Seq<char>>(Seq::empty()),
{
    let ls = lines(text);
    let u = unfolded(trimmed(ls[0]));
    let s = substituted(u, args);
    if line_keyword(args, u) != "FROM"@ {
        lemma_only_from_gives_from(keyword_of(s), args_of(s), json_string_list(args_of(s)));
    }
    reveal_strlit("FROM");
    reveal_strlit("ARG");
    assert("FROM"@.len() != "ARG"@.len());
    assert(parsed_lines(args, ls, 0) == Ok::<Seq<InstructionView>, Seq<char>>(Seq::empty()));
    assert(opening(args, ls, 0) is None);
    let is = Seq::<InstructionView>::empty().push(InstructionView::From("scratch"@));
    assert(parsed_lines(args, ls, 1) == Ok::<Seq<InstructionView>, Seq<char>>(is));
    assert(opening(args, ls, 1) == Some("FROM"@));
    assert(is.drop_first() =~= Seq::<InstructionView>::empty());
}

/// An `ARG` is read and not stored: a line with the keyword `ARG` that can
/// be read leaves the chain as it is.
pub proof fn lemma_arg_is_not_stored(
    args: Seq<(Seq<char>, Seq<char>)>,
    ls: Seq<Seq<char>>,
    n: int,
)
    requires
        0 < n <= ls.len(),
        is_instruction_line(trimmed(ls[n - 1])),
        line_keyword(args, unfolded(trimmed(ls[n - 1]))) == "ARG"@,
        parsed_lines(args, ls, n - 1) is Ok,
    ensures
        parsed_lines(args, ls, n) == parsed_lines(args, ls, n - 1),
{
    let u = unfolded(trimmed(ls[n - 1]));
    let s = substituted(u, args);
    reveal_strlit("ARG");
    reveal_strlit("FROM");
    reveal_strlit("BOOTSTRAP");
    reveal_strlit("RUN");
    reveal_strlit("COPY");
    reveal_strlit("ADD");
    reveal_strlit("WORKDIR");
    reveal_strlit("ENV");
    reveal_strlit("EXPOSE");
    reveal_strlit("USER");
    reveal_strlit("VOLUME");
    reveal_strlit("CMD");
    reveal_strlit("ENTRYPOINT");
    reveal_strlit("LABEL");
    let k = "ARG"@;
    assert(k.len() == 3 && k[0] == 'A' && k[1] == 'R');
    assert("RUN"@[0] == 'R' && "ADD"@[1] == 'D' && "ENV"@[0] == 'E' && "CMD"@[0] == 'C');
    assert(parsed(k, args_of(s), json_string_list(args_of(s))) is Ok);
    assert(line_result(args, u) is Ok);
}

} // verus!

verus! {

// ---------------------------------------------------------------------------
// The effect of an instruction on the image configuration
// ---------------------------------------------------------------------------

/// The configuration after an instruction took effect.
pub open spec fn applied(c: ImageConfigView, i: InstructionView) -> ImageConfigView {
    match i {
        InstructionView::WorkDir(p) => ImageConfigView { workdir: Some(p), ..c },
        InstructionView::Env(m) => ImageConfigView { env: c.env.union_prefer_right(m), ..c },
        InstructionView::Expose(ps) => ImageConfigView { exposed_ports: c.exposed_ports + ps, ..c },
        InstructionView::User(u) => ImageConfigView { user: Some(u), ..c },
        InstructionView::Volume(v) => ImageConfigView { volumes: c.volumes + v, ..c },
        InstructionView::Cmd(v) => ImageConfigView { cmd: Some(v), ..c },
        InstructionView::Entrypoint(v) => ImageConfigView { entrypoint: Some(v), ..c },
        InstructionView::Label(m) => ImageConfigView { labels: c.labels.union_prefer_right(m), ..c },
        _ => c,
    }
}

/// The configuration after a chain of instructions took effect in order.
pub open spec fn applied_all(c: ImageConfigView, is: Seq<InstructionView>) -> ImageConfigView
    decreases is.len(),
{
    if is.len() == 0 {
        c
    } else {
        applied(applied_all(c, is.drop_last()), is.last())
    }
}

/// Lets an instruction take effect on a configuration.
pub fn apply_instruction(config: &mut ImageConfig, instruction: &DockerfileInstruction)
    ensures
        final(config)@ == applied(old(config)@, instruction@),
{
    match instruction {
        DockerfileInstruction::WorkDir(p) => {
            config.workdir = Some(p.clone());
        },
        DockerfileInstruction::Env(m) => {
            config.env.extend(m);
        },
        DockerfileInstruction::Expose(ps) => {
            let mut i: usize = 0;
            assert(config.exposed_ports@ =~= old(config).exposed_ports@ + ps@.take(0));
            while i < ps.len()
                invariant
                    i <= ps.len(),
                    config.exposed_ports@ == old(config).exposed_ports@ + ps@.take(i as int),
                    config.env == old(config).env,
                    config.workdir == old(config).workdir,
                    config.user == old(config).user,
                    config.volumes == old(config).volumes,
                    config.entrypoint == old(config).entrypoint,
                    config.cmd == old(config).cmd,
                    config.labels == old(config).labels,
                decreases ps.len() - i,
            {
                config.exposed_ports.push(ps[i]);
                i += 1;
                assert(config.exposed_ports@ =~= old(config).exposed_ports@ + ps@.take(i as int));
            }
            assert(ps@.take(ps.len() as int) =~= ps@);
        },
        DockerfileInstruction::User(u) => {
            config.user = Some(u.clone());
        },
        DockerfileInstruction::Volume(v) => {
            let mut i: usize = 0;
            assert(str_views(config.volumes@) =~= str_views(old(config).volumes@) + str_views(
                v@,
            ).take(0));
            while i < v.len()
                invariant
                    i <= v.len(),
                    str_views(config.volumes@) == str_views(old(config).volumes@) + str_views(
                        v@,
                    ).take(i as int),
                    config.env == old(config).env,
                    config.workdir == old(config).workdir,
                    config.user == old(config).user,
                    config.exposed_ports == old(config).exposed_ports,
                    config.entrypoint == old(config).entrypoint,
                    config.cmd == old(config).cmd,
                    config.labels == old(config).labels,
                decreases v.len() - i,
            {
                let ghost before = str_views(config.volumes@);
                config.volumes.push(v[i].clone());
                i += 1;
                assert(str_views(config.volumes@) =~= before.push(v@[i - 1]@));
                assert(str_views(config.volumes@) =~= str_views(old(config).volumes@) + str_views(
                    v@,
                ).take(i as int));
            }
            assert(str_views(v@).take(v.len() as int) =~= str_views(v@));
        },
        DockerfileInstruction::Cmd(v) => {
            config.cmd = Some(clone_strings(v));
        },
        DockerfileInstruction::Entrypoint(v) => {
            config.entrypoint = Some(clone_strings(v));
        },
        DockerfileInstruction::Label(m) => {
            config.labels.extend(m);
        },
        _ => {},
    }
}

/// Lets a chain of instructions take effect on a configuration, in order.
pub fn apply_instructions(config: &mut ImageConfig, instructions: &Vec<DockerfileInstruction>)
    ensures
        final(config)@ == applied_all(old(config)@, instructions_view(instructions@)),
{
    let ghost all = instructions_view(instructions@);
    let mut i: usize = 0;
    assert(all.take(0) =~= Seq::<InstructionView>::empty());
    while i < instructions.len()
        invariant
            i <= instructions.len(),
            all == instructions_view(instructions@),
            config@ == applied_all(old(config)@, all.take(i as int)),
        decreases instructions.len() - i,
    {
        apply_instruction(config, &instructions[i]);
        proof {
            let next = all.take(i + 1);
            assert(next.drop_last() =~= all.take(i as int));
            assert(next.last() == instructions@[i as int]@);
        }
        i += 1;
    }
    assert(all.take(instructions.len() as int) =~= all);
}

// ---------------------------------------------------------------------------
// How an instruction is shown
// ---------------------------------------------------------------------------

/// A list of strings as the debug format writes it.
pub uninterp spec fn debug_list_text(items: Seq<Seq<char>>) -> Seq<char>;

/// Writes a list of strings in debug format.
///
/// Trusted: `format!` with `{:?}` on a `Vec<String>`, whose result depends
/// on the strings alone.
#[verifier::external_body]
fn debug_list(items: &Vec<String>) -> (r: String)
    ensures
        r@ == debug_list_text(str_views(items@)),
{
    format!("{:?}", items)
}

/// Ports between square brackets, separated by a comma and a space.
pub open spec fn ports_text(ps: Seq<u16>) -> Seq<char> {
    "["@ + joined_with(Seq::new(ps.len(), |i: int| decimal(ps[i] as nat)), ", "@) + "]"@
}

fn write_ports(ps: &Vec<u16>) -> (r: String)
    ensures
        r@ == ports_text(ps@),
{
    let mut items: Vec<String> = Vec::new();
    let mut i: usize = 0;
    while i < ps.len()
        invariant
            i <= ps.len(),
            items.len() == i,
            forall|j: int| 0 <= j < i ==> (#[trigger] items@[j])@ == decimal(ps@[j] as nat),
        decreases ps.len() - i,
    {
        items.push(string_of(&decimal_chars(ps[i] as u64)));
        i += 1;
    }
    assert(str_views(items@) =~= Seq::new(ps@.len(), |i: int| decimal(ps@[i] as nat)));
    let inner = join_strings(&items, ", ");
    concat3("[", inner.as_str(), "]")
}

/// What is shown for an absent option.
pub open spec fn or_auto(o: Option<Seq<char>>) -> Seq<char> {
    match o {
        Some(s) => s,
        None => "auto"@,
    }
}

/// The line shown for an instruction in progress reports and histories.
pub open spec fn described(i: InstructionView) -> Seq<char> {
    match i {
        InstructionView::From(s) => "FROM "@ + s,
        InstructionView::Bootstrap { version, architecture, mirror } => "BOOTSTRAP "@ + or_auto(
            version,
        ) + " "@ + or_auto(architecture),
        InstructionView::Run(c) => "RUN "@ + c,
        InstructionView::Copy { from, src, dest } => "COPY "@ + src + " "@ + dest,
        InstructionView::Add { src, dest } => "ADD "@ + src + " "@ + dest,
        InstructionView::WorkDir(p) => "WORKDIR "@ + p,
        InstructionView::Env(m) => "ENV "@ + decimal(m.dom().len()) + " vars"@,
        InstructionView::Expose(ps) => "EXPOSE "@ + ports_text(ps),
        InstructionView::User(u) => "USER "@ + u,
        InstructionView::Volume(v) => "VOLUME "@ + debug_list_text(v),
        InstructionView::Cmd(v) => "CMD "@ + debug_list_text(v),
        InstructionView::Entrypoint(v) => "ENTRYPOINT "@ + debug_list_text(v),
        InstructionView::Label(m) => "LABEL "@ + decimal(m.dom().len()) + " entries"@,
    }
}

fn four(a: &str, b: &str, c: &str, d: &str) -> (r: String)
    ensures
        r@ == a@ + b@ + c@ + d@,
{
    let mut out = concat3(a, b, c);
    out.append(d);
    out
}

/// Writes the line shown for an instruction.
pub fn describe(instruction: &DockerfileInstruction) -> (r: String)
    ensures
        r@ == described(instruction@),
{
    match instruction {
        DockerfileInstruction::From(s) => concat2("FROM ", s.as_str()),
        DockerfileInstruction::Bootstrap { version, architecture, mirror } => {
            let v: &str = match version {
                Some(x) => x.as_str(),
                None => "auto",
            };
            let a: &str = match architecture {
                Some(x) => x.as_str(),
                None => "auto",
            };
            four("BOOTSTRAP ", v, " ", a)
        },
        DockerfileInstruction::Run(c) => concat2("RUN ", c.as_str()),
        DockerfileInstruction::Copy { from, src, dest } => four(
            "COPY ",
            src.as_str(),
            " ",
            dest.as_str(),
        ),
        DockerfileInstruction::Add { src, dest } => four("ADD ", src.as_str(), " ", dest.as_str()),
        DockerfileInstruction::WorkDir(p) => concat2("WORKDIR ", p.as_str()),
        DockerfileInstruction::Env(m) => {
            let n = string_of(&decimal_chars(m.len() as u64));
            concat3("ENV ", n.as_str(), " vars")
        },
        DockerfileInstruction::Expose(ps) => concat2("EXPOSE ", write_ports(ps).as_str()),
        DockerfileInstruction::User(u) => concat2("USER ", u.as_str()),
        DockerfileInstruction::Volume(v) => concat2("VOLUME ", debug_list(v).as_str()),
        DockerfileInstruction::Cmd(v) => concat2("CMD ", debug_list(v).as_str()),
        DockerfileInstruction::Entrypoint(v) => concat2("ENTRYPOINT ", debug_list(v).as_str()),
        DockerfileInstruction::Label(m) => {
            let n = string_of(&decimal_chars(m.len() as u64));
            concat3("LABEL ", n.as_str(), " entries")
        },
    }
}

// ---------------------------------------------------------------------------
// What an instruction asks of the host
// ---------------------------------------------------------------------------

/// The kinds of work that a build asks of the host.
#[derive(Debug, Clone, Copy, PartialEq, Eq, Structural)]
pub enum ActionKind {
    /// Install a base system below `target`, as the instruction says, unless
    /// one is there.
    Bootstrap,
    /// Run `detail` with `/bin/sh -c` in a chroot at `target`; a non-zero
    /// exit fails the build.
    Run,
    /// Copy the file or directory `detail` to `target`, creating parents.
    Copy,
    /// Fetch the address `detail` to `target`.
    Download,
    /// Create the directory `target` and its parents.
    MakeDir,
    /// Append `detail` to the file `target`, creating it and its parents.
    AppendFile,
}

/// One piece of work for the host.
#[derive(Debug, PartialEq, Eq)]
pub struct BuildAction {
    pub kind: ActionKind,
    pub target: String,
    pub detail: String,
}

impl View for BuildAction {
    type V = (ActionKind, Seq<char>, Seq<char>);

    open spec fn view(&self) -> (ActionKind, Seq<char>, Seq<char>) {
        (self.kind, self.target@, self.detail@)
    }
}

/// The actions of a list as values.
pub open spec fn actions_view(v: Seq<BuildAction>) -> Seq<(ActionKind, Seq<char>, Seq<char>)> {
    Seq::new(v.len(), |i: int| v[i]@)
}

/// A path inside the build root: the root, then the path without its leading
/// slashes.
pub open spec fn inside(root: Seq<char>, path: Seq<char>) -> Seq<char> {
    joined(root, strip_leading(path, '/'))
}

fn inside_root(root: &str, path: &str) -> (r: String)
    ensures
        r@ == inside(root@, path@),
{
    let rel = string_of(&strip_leading_char(&chars_of(path), '/'));
    join(root, rel.as_str())
}

/// The lines that export the variables of `pairs`, in order.
pub open spec fn export_lines(pairs: Seq<(Seq<char>, Seq<char>)>) -> Seq<char>
    decreases pairs.len(),
{
    if pairs.len() == 0 {
        Seq::empty()
    } else {
        export_lines(pairs.drop_last()) + "export "@ + pairs.last().0 + "=\""@ + pairs.last().1
            + "\"\n"@
    }
}

fn write_exports(m: &StringMap) -> (r: String)
    ensures
        r@ == export_lines(m.pairs()),
{
    let mut out = String::new();
    let n = m.len();
    let mut i: usize = 0;
    let ghost all = m.pairs();
    assert(all.take(0) =~= Seq::<(Seq<char>, Seq<char>)>::empty());
    while i < n
        invariant
            i <= n,
            n == all.len(),
            all == m.pairs(),
            out@ == export_lines(all.take(i as int)),
        decreases n - i,
    {
        out.append("export ");
        out.append(m.key_at(i).as_str());
        out.append("=\"");
        out.append(m.value_at(i).as_str());
        out.append("\"\n");
        proof {
            let next = all.take(i + 1);
            assert(next.drop_last() =~= all.take(i as int));
            assert(next.last() == all[i as int]);
        }
        i += 1;
    }
    assert(all.take(n as int) =~= all);
    out
}

/// Whether a source is fetched from the network.
pub open spec fn is_url(src: Seq<char>) -> bool {
    has_prefix(src, "http://"@) || has_prefix(src, "https://"@)
}

/// The work that an instruction asks of the host, for a build rooted at
/// `root` that reads from `context`.
pub open spec fn actions_for(root: Seq<char>, context: Seq<char>, i: DockerfileInstruction) -> Seq<
    (ActionKind, Seq<char>, Seq<char>),
> {
    match i {
        DockerfileInstruction::Bootstrap { version, architecture, mirror } => seq![
            (ActionKind::Bootstrap, root, Seq::empty()),
        ],
        DockerfileInstruction::Run(c) => seq![(ActionKind::Run, root, c@)],
        DockerfileInstruction::Copy { from, src, dest } => seq![
            (ActionKind::Copy, inside(root, dest@), joined(context, src@)),
        ],
        DockerfileInstruction::Add { src, dest } => if is_url(src@) {
            seq![(ActionKind::Download, inside(root, dest@), src@)]
        } else {
            seq![(ActionKind::Copy, inside(root, dest@), joined(context, src@))]
        },
        DockerfileInstruction::WorkDir(p) => seq![(ActionKind::MakeDir, inside(root, p@), Seq::empty())],
        DockerfileInstruction::Env(m) => seq![
            (
                ActionKind::AppendFile,
                joined(joined(root, "etc"@), "profile.kawakaze"@),
                export_lines(m.pairs()),
            ),
        ],
        DockerfileInstruction::Volume(v) => Seq::new(
            v@.len(),
            |k: int| (ActionKind::MakeDir, inside(root, v@[k]@), Seq::empty()),
        ),
        _ => Seq::empty(),
    }
}

fn one_action(kind: ActionKind, target: String, detail: String) -> (r: Vec<BuildAction>)
    ensures
        actions_view(r@) == seq![(kind, target@, detail@)],
{
    let mut v: Vec<BuildAction> = Vec::new();
    v.push(BuildAction { kind, target, detail });
    assert(actions_view(v@) =~= seq![(kind, target@, detail@)]);
    v
}

impl ImageBuilder {
    /// Lets an instruction take effect on the configuration and says what it
    /// asks of the host, for a build rooted at `root`.
    pub fn execute_instruction(
        &self,
        root: &str,
        instruction: &DockerfileInstruction,
        config: &mut ImageConfig,
    ) -> (r: Vec<BuildAction>)
        ensures
            final(config)@ == applied(old(config)@, instruction@),
            actions_view(r@) == actions_for(root@, self.build_context@, *instruction),
    {
        apply_instruction(config, instruction);
        match instruction {
            DockerfileInstruction::Bootstrap { version, architecture, mirror } => one_action(
                ActionKind::Bootstrap,
                root.to_owned(),
                String::new(),
            ),
            DockerfileInstruction::Run(c) => one_action(ActionKind::Run, root.to_owned(), c.clone()),
            DockerfileInstruction::Copy { from, src, dest } => one_action(
                ActionKind::Copy,
                inside_root(root, dest.as_str()),
                join(self.build_context.as_str(), src.as_str()),
            ),
            DockerfileInstruction::Add { src, dest } => {
                let s = chars_of(src.as_str());
                let remote = starts_with(&s, &chars_of("http://")) || starts_with(
                    &s,
                    &chars_of("https://"),
                );
                if remote {
                    one_action(ActionKind::Download, inside_root(root, dest.as_str()), src.clone())
                } else {
                    one_action(
                        ActionKind::Copy,
                        inside_root(root, dest.as_str()),
                        join(self.build_context.as_str(), src.as_str()),
                    )
                }
            },
            DockerfileInstruction::WorkDir(p) => one_action(
                ActionKind::MakeDir,
                inside_root(root, p.as_str()),
                String::new(),
            ),
            DockerfileInstruction::Env(m) => {
                let etc = join(root, "etc");
                one_action(
                    ActionKind::AppendFile,
                    join(etc.as_str(), "profile.kawakaze"),
                    write_exports(m),
                )
            },
            DockerfileInstruction::Volume(v) => {
                let mut out: Vec<BuildAction> = Vec::new();
                let mut k: usize = 0;
                while k < v.len()
                    invariant
                        k <= v.len(),
                        out.len() == k,
                        forall|j: int|
                            0 <= j < k ==> (#[trigger] out@[j])@ == (
                                ActionKind::MakeDir,
                                inside(root@, v@[j]@),
                                Seq::<char>::empty(),
                            ),
                    decreases v.len() - k,
                {
                    out.push(
                        BuildAction {
                            kind: ActionKind::MakeDir,
                            target: inside_root(root, v[k].as_str()),
                            detail: String::new(),
                        },
                    );
                    k += 1;
                }
                assert(actions_view(out@) =~= actions_for(root@, self.build_context@, *instruction));
                out
            },
            _ => {
                let out: Vec<BuildAction> = Vec::new();
                assert(actions_view(out@) =~= Seq::empty());
                out
            },
        }
    }
}

/// The script written in place of a `RUN` where no chroot can be had: its
/// path below the root and its text.
pub fn run_fallback_script(root: &str, command: &str) -> (r: (String, String))
    ensures
        r.0@ == joined(joined(root@, "tmp"@), "kawakaze-build.sh"@),
        r.1@ == "#!/bin/sh\n"@ + command@ + "\n"@,
{
    let tmp = join(root, "tmp");
    (join(tmp.as_str(), "kawakaze-build.sh"), concat3("#!/bin/sh\n", command, "\n"))
}

// ---------------------------------------------------------------------------
// The plan of a build
// ---------------------------------------------------------------------------

/// How the dataset of a build comes to be.
#[derive(Debug, PartialEq, Eq)]
pub enum DatasetSetup {
    /// Create an empty dataset.
    Create,
    /// Clone this snapshot of the base image.
    CloneFrom(String),
}

/// One step of a build: what to report, then what to do.
#[derive(Debug, PartialEq, Eq)]
pub struct BuildStep {
    pub progress: ImageBuildProgress,
    pub actions: Vec<BuildAction>,
}

/// Everything a build will do, decided before anything is done.
#[derive(Debug, PartialEq)]
pub struct BuildPlan {
    pub name: String,
    /// The dataset to build in: `<base>/build-<name>`.
    pub build_dataset: String,
    /// Where the dataset is mounted while building.
    pub mountpoint: String,
    pub setup: DatasetSetup,
    /// One step per instruction, in order. When a step fails the dataset is
    /// unmounted and kept.
    pub steps: Vec<BuildStep>,
    pub instructions: Vec<DockerfileInstruction>,
    /// The configuration of the finished image.
    pub config: ImageConfig,
    pub parent_id: Option<String>,
    /// The snapshot to take once all steps are done.
    pub snapshot_name: String,
    /// The dataset that the build dataset is renamed to in the end.
    pub final_dataset: String,
    /// The snapshot of the finished image: `<final dataset>@<snapshot name>`.
    pub final_snapshot: String,
}

/// A name with each `/` made a `-`.
pub open spec fn sanitized(name: Seq<char>) -> Seq<char> {
    replaced(name, seq!['/'], seq!['-'])
}

fn sanitize(name: &str) -> (r: String)
    ensures
        r@ == sanitized(name@),
{
    let mut from: Vec<char> = Vec::new();
    from.push('/');
    let mut to: Vec<char> = Vec::new();
    to.push('-');
    assert(from@ =~= seq!['/']);
    assert(to@ =~= seq!['-']);
    string_of(&replace(&chars_of(name), &from, &to))
}

/// Whether a snapshot name has a dataset and a name with one `@` between.
pub open spec fn is_snapshot_path(s: Seq<char>) -> bool {
    split(s, '@').len() == 2
}

/// The configuration that a build starts from: the base image's, or none.
pub open spec fn start_config(base: Option<ImageView>) -> ImageConfigView {
    match base {
        Some(b) => b.config,
        None => ImageConfigView::empty(),
    }
}

/// An optional image as a value.
pub open spec fn image_opt_view(o: Option<&Image>) -> Option<ImageView> {
    match o {
        Some(i) => Some(i@),
        None => None,
    }
}

/// One of the steps that publish a build once its instructions are done.
#[derive(Debug, PartialEq, Eq)]
pub enum ClosingStep {
    /// Take the snapshot `name` of `dataset`. A failure ends the build.
    Snapshot { dataset: String, name: String },
    /// Read the space that `dataset` uses: the size of the image. A
    /// failure counts as a size of zero.
    Measure { dataset: String },
    /// Rename `from` to `to`. A failure ends the build.
    Rename { from: String, to: String },
}

impl BuildPlan {
    /// The steps that publish the build, in their order: the snapshot is
    /// taken of the build dataset, the dataset is measured and only then
    /// renamed to the final dataset, whose snapshot the image names. When
    /// a step fails, the build dataset is unmounted and kept, as it is
    /// when an instruction fails.
    pub fn closing(&self) -> (r: Vec<ClosingStep>)
        ensures
            r@.len() == 3,
            r@[0] matches ClosingStep::Snapshot { dataset, name }
                && (dataset@ == self.build_dataset@ && name@ == self.snapshot_name@),
            r@[1] matches ClosingStep::Measure { dataset } && dataset@ == self.build_dataset@,
            r@[2] matches ClosingStep::Rename { from, to }
                && (from@ == self.build_dataset@ && to@ == self.final_dataset@),
    {
        let mut steps: Vec<ClosingStep> = Vec::new();
        steps.push(
            ClosingStep::Snapshot {
                dataset: self.build_dataset.clone(),
                name: self.snapshot_name.clone(),
            },
        );
        steps.push(ClosingStep::Measure { dataset: self.build_dataset.clone() });
        steps.push(
            ClosingStep::Rename {
                from: self.build_dataset.clone(),
                to: self.final_dataset.clone(),
            },
        );
        steps
    }

    /// Whether the plan is the plan of building `name` from `dockerfile` upon
    /// `base` with `builder`.
    pub open spec fn is_plan_of(
        &self,
        builder: &ImageBuilder,
        name: Seq<char>,
        dockerfile: Seq<char>,
        base: Option<ImageView>,
    ) -> bool {
        let chain = parsed_file(builder.build_args.pairs(), dockerfile);
        &&& chain is Ok
        &&& instructions_view(self.instructions@) == chain->Ok_0
        &&& self.config@ == applied_all(start_config(base), chain->Ok_0)
        &&& self.name@ == name
        &&& self.build_dataset@ == builder.base_dataset@ + "/build-"@ + name
        &&& self.mountpoint@ == "/var/db/kawakaze/builds/"@ + sanitized(name)
        &&& match base {
            Some(b) => self.setup matches DatasetSetup::CloneFrom(s) && s@ == b.snapshot
                && opt_view(self.parent_id) == Some(b.id),
            None => self.setup is Create && self.parent_id is None,
        }
        &&& exists|id: Seq<char>|
            #[trigger] is_id_text(id) && self.snapshot_name@ == sanitized(name) + "-"@ + id
        &&& self.final_dataset@ == builder.base_dataset@ + "/"@ + sanitized(name)
        &&& self.final_snapshot@ == self.final_dataset@ + "@"@ + self.snapshot_name@
        &&& self.steps@.len() == self.instructions@.len()
        &&& forall|k: int|
            0 <= k < self.steps@.len() ==> {
                let st = #[trigger] self.steps@[k];
                &&& st.progress.image_id@ == name
                &&& st.progress.step == k
                &&& st.progress.total_steps == self.instructions@.len()
                &&& st.progress.current_instruction@ == described(self.instructions@[k]@)
                &&& st.progress.status == BuildStatus::Building
                &&& actions_view(st.actions@) == actions_for(
                    self.mountpoint@,
                    builder.build_context@,
                    self.instructions@[k],
                )
            }
    }
}

impl ImageBuilder {
    /// Reports a step of a build.
    pub fn report_progress(
        &self,
        image_id: &str,
        step: usize,
        total: usize,
        instruction: &DockerfileInstruction,
        status: BuildStatus,
    ) -> (r: ImageBuildProgress)
        ensures
            r.image_id@ == image_id@,
            r.step == step,
            r.total_steps == total,
            r.current_instruction@ == described(instruction@),
            r.status == status,
    {
        ImageBuildProgress {
            image_id: image_id.to_owned(),
            step,
            total_steps: total,
            current_instruction: describe(instruction),
            status,
        }
    }

    /// Plans the build of image `name` from a Dockerfile, upon `from_image`
    /// if there is one. Nothing is asked of the host yet: the plan says what
    /// will be. A Dockerfile that cannot be read, or a base image whose
    /// snapshot is no snapshot path, fails the build before it starts.
    pub fn build(&self, name: String, dockerfile: &str, from_image: Option<&Image>) -> (r: Result<
        BuildPlan,
        ImageError,
    >)
        ensures
            match parsed_file(self.build_args.pairs(), dockerfile@) {
                Err(e) => r matches Err(ImageError::ParseError(m)) && m@ == e,
                Ok(chain) => match from_image {
                    Some(b) if !is_snapshot_path(b.snapshot@) => r matches Err(ImageError::Zfs(m))
                        && m@ == "Invalid snapshot format: "@ + b.snapshot@,
                    _ => r matches Ok(p) && p.is_plan_of(
                        self,
                        name@,
                        dockerfile@,
                        image_opt_view(from_image),
                    ),
                },
            },
    {
        let instructions = match self.parse_dockerfile(dockerfile) {
            Ok(i) => i,
            Err(e) => {
                return Err(e);
            },
        };
        let mut config: ImageConfig = match from_image {
            Some(b) => b.config.duplicate(),
            None => ImageConfig::default(),
        };
        let (setup, parent_id) = match from_image {
            Some(b) => {
                let parts = split_at_char(&chars_of(b.snapshot.as_str()), '@');
                if parts.len() != 2 {
                    return Err(
                        ImageError::Zfs(concat2("Invalid snapshot format: ", b.snapshot.as_str())),
                    );
                }
                (DatasetSetup::CloneFrom(b.snapshot.clone()), Some(b.id.clone()))
            },
            None => (DatasetSetup::Create, None),
        };
        let clean = sanitize(name.as_str());
        let build_dataset = concat3(self.base_dataset.as_str(), "/build-", name.as_str());
        let mountpoint = concat2("/var/db/kawakaze/builds/", clean.as_str());
        let id = random_id();
        let snapshot_name = concat3(clean.as_str(), "-", id.as_str());
        let final_dataset = concat3(self.base_dataset.as_str(), "/", clean.as_str());
        let final_snapshot = concat3(final_dataset.as_str(), "@", snapshot_name.as_str());
        assert(is_id_text(id@) && snapshot_name@ == sanitized(name@) + "-"@ + id@);
        let total = instructions.len();
        let mut steps: Vec<BuildStep> = Vec::new();
        let mut k: usize = 0;
        let mut scratch: ImageConfig = ImageConfig::default();
        while k < total
            invariant
                k <= total,
                total == instructions.len(),
                steps.len() == k,
                forall|j: int|
                    0 <= j < k ==> {
                        let st = #[trigger] steps@[j];
                        &&& st.progress.image_id@ == name@
                        &&& st.progress.step == j
                        &&& st.progress.total_steps == total
                        &&& st.progress.current_instruction@ == described(instructions@[j]@)
                        &&& st.progress.status == BuildStatus::Building
                        &&& actions_view(st.actions@) == actions_for(
                            mountpoint@,
                            self.build_context@,
                            instructions@[j],
                        )
                    },
            decreases total - k,
        {
            let progress = self.report_progress(
                name.as_str(),
                k,
                total,
                &instructions[k],
                BuildStatus::Building,
            );
            let actions = self.execute_instruction(mountpoint.as_str(), &instructions[k], &mut scratch);
            steps.push(BuildStep { progress, actions });
            k += 1;
        }
        apply_instructions(&mut config, &instructions);
        Ok(
            BuildPlan {
                name,
                build_dataset,
                mountpoint,
                setup,
                steps,
                instructions,
                config,
                parent_id,
                snapshot_name,
                final_dataset,
                final_snapshot,
            },
        )
    }
}

/// The image that a finished build publishes: available, with the plan's
/// instructions, configuration and final snapshot, and with the base image
/// as its parent if it has one. `used_space` is the size of the build
/// dataset if it could be read, and counts as zero otherwise. With the image
/// comes the last progress report.
pub fn finish_build(plan: BuildPlan, used_space: Option<u64>) -> (r: (Image, ImageBuildProgress))
    ensures
        is_id_text(r.0@.id),
        r.0@ == (ImageView {
            id: r.0@.id,
            name: plan.name@,
            parent_id: opt_view(plan.parent_id),
            snapshot: plan.final_snapshot@,
            dockerfile: instructions_view(plan.instructions@),
            config: plan.config@,
            size_bytes: match used_space {
                Some(n) => n,
                None => 0,
            },
            state: ImageState::Available,
            created_at: r.0@.created_at,
        }),
        r.1.image_id@ == r.0@.id,
        r.1.step == plan.instructions@.len(),
        r.1.total_steps == plan.instructions@.len(),
        r.1.current_instruction@ == "RUN complete"@,
        r.1.status == BuildStatus::Complete,
{
    let total = plan.instructions.len();
    let size: u64 = match used_space {
        Some(n) => n,
        None => 0,
    };
    let mut image = Image::new(plan.name, plan.instructions).with_snapshot(
        plan.final_snapshot,
    ).with_config(plan.config).with_size(size).with_state(ImageState::Available);
    match plan.parent_id {
        Some(p) => {
            image = image.with_parent(p);
        },
        None => {},
    }
    let progress = ImageBuildProgress {
        image_id: image.id.clone(),
        step: total,
        total_steps: total,
        current_instruction: "RUN complete".to_owned(),
        status: BuildStatus::Complete,
    };
    (image, progress)
}

/// An image that is built from `FROM scratch` alone, upon no base image,
/// has no instructions, no steps and no parent.
pub proof fn lemma_scratch_plan_is_bare(
    plan: BuildPlan,
    builder: &ImageBuilder,
    name: Seq<char>,
    text: Seq<char>,
)
    requires
        lines(text).len() == 1,
        is_instruction_line(trimmed(lines(text)[0])),
        line_result(builder.build_args.pairs(), unfolded(trimmed(lines(text)[0]))) == Ok::<
            InstructionView,
            Seq<char>,
        >(InstructionView::From("scratch"@)),
        plan.is_plan_of(builder, name, text, None),
    ensures
        plan.instructions@.len() == 0,
        plan.steps@.len() == 0,
        plan.parent_id is None,
        plan.config@ == start_config(None),
{
    lemma_from_scratch_is_empty(builder.build_args.pairs(), text);
    assert(instructions_view(plan.instructions@).len() == 0);
}

/// Two builds from the same Dockerfile, the same build arguments and the
/// same base image publish the same instruction chain and the same
/// configuration, whatever their identifiers and snapshot names are.
pub proof fn lemma_builds_agree(
    first: BuildPlan,
    second: BuildPlan,
    builder: &ImageBuilder,
    other: &ImageBuilder,
    name: Seq<char>,
    dockerfile: Seq<char>,
    base: Option<ImageView>,
)
    requires
        builder.build_args.pairs() == other.build_args.pairs(),
        first.is_plan_of(builder, name, dockerfile, base),
        second.is_plan_of(other, name, dockerfile, base),
    ensures
        instructions_view(first.instructions@) == instructions_view(second.instructions@),
        first.config@ == second.config@,
{
}

} // verus!
