//! Qualified component identifiers: `name`, `project/name` or
//! `account/project/name`.

use vstd::prelude::*;
use vstd::string::*;

verus! {

/// The character that separates the segments of an identifier.
pub const SEPARATOR: char = '/';

/// The role a segment plays in an identifier.
#[derive(Clone, Copy, Debug, PartialEq, Eq, Hash)]
pub enum SegmentKind {
    Account,
    Project,
    Component,
}

/// Why a raw identifier was rejected.
#[derive(Clone, Copy, Debug, PartialEq, Eq, Hash)]
pub enum ParseError {
    /// The identifier has more than three segments.
    MalformedIdentifier,
    /// A segment that is present is empty.
    MissingSegment { kind: SegmentKind },
}

/// A parsed identifier. A segment that is present is neither empty nor
/// holds a separator, and an account comes only with a project.
#[derive(Debug, PartialEq, Eq, Hash)]
pub struct ComponentIdentifier {
    account: Option<String>,
    project: Option<String>,
    name: String,
}

/// What a `ComponentIdentifier` stands for: its segments as character sequences.
pub struct IdentifierView {
    pub account: Option<Seq<char>>,
    pub project: Option<Seq<char>>,
    pub name: Seq<char>,
}

/// The view of an optional string.
pub open spec fn opt_view(s: Option<String>) -> Option<Seq<char>> {
    match s {
        Some(s) => Some(s@),
        None => None,
    }
}

/// The views of a sequence of strings.
pub open spec fn views(s: Seq<String>) -> Seq<Seq<char>> {
    s.map_values(|t: String| t@)
}

/// The segments of `s`: the pieces between occurrences of `sep`. There is
/// always at least one; the last one grows with every character that is not
/// `sep`, and every `sep` opens a new, empty one.
pub open spec fn split_on(s: Seq<char>, sep: char) -> Seq<Seq<char>>
    decreases s.len(),
{
    if s.len() == 0 {
        seq![Seq::<char>::empty()]
    } else {
        let init = split_on(s.drop_last(), sep);
        if s.last() == sep {
            init.push(Seq::<char>::empty())
        } else {
            init.drop_last().push(init.last().push(s.last()))
        }
    }
}

/// The parts written one after the other with `sep` between neighbours.
pub open spec fn join_with(parts: Seq<Seq<char>>, sep: Seq<char>) -> Seq<char>
    decreases parts.len(),
{
    if parts.len() == 0 {
        Seq::<char>::empty()
    } else if parts.len() == 1 {
        parts[0]
    } else {
        join_with(parts.drop_last(), sep) + sep + parts.last()
    }
}

/// No segment holds the separator.
pub open spec fn separator_free(parts: Seq<Seq<char>>, sep: char) -> bool {
    forall|i: int, j: int|
        0 <= i < parts.len() && 0 <= j < parts[i].len() ==> #[trigger] parts[i][j] != sep
}

/// The role of segment `i` among `count` segments: the last one names the
/// component, the one before it the project, the one before that the account.
pub open spec fn role_of(count: int, i: int) -> SegmentKind {
    if i == count - 1 {
        SegmentKind::Component
    } else if i == count - 2 {
        SegmentKind::Project
    } else {
        SegmentKind::Account
    }
}

/// The identifier that one to three segments spell, or the first empty
/// segment's role; `MalformedIdentifier` for any other count.
pub open spec fn identifier_of(segments: Seq<Seq<char>>) -> Result<IdentifierView, ParseError> {
    if segments.len() == 1 {
        if segments[0].len() == 0 {
            Err(ParseError::MissingSegment { kind: SegmentKind::Component })
        } else {
            Ok(IdentifierView { account: None, project: None, name: segments[0] })
        }
    } else if segments.len() == 2 {
        if segments[0].len() == 0 {
            Err(ParseError::MissingSegment { kind: SegmentKind::Project })
        } else if segments[1].len() == 0 {
            Err(ParseError::MissingSegment { kind: SegmentKind::Component })
        } else {
            Ok(IdentifierView { account: None, project: Some(segments[0]), name: segments[1] })
        }
    } else if segments.len() == 3 {
        if segments[0].len() == 0 {
            Err(ParseError::MissingSegment { kind: SegmentKind::Account })
        } else if segments[1].len() == 0 {
            Err(ParseError::MissingSegment { kind: SegmentKind::Project })
        } else if segments[2].len() == 0 {
            Err(ParseError::MissingSegment { kind: SegmentKind::Component })
        } else {
            Ok(
                IdentifierView {
                    account: Some(segments[0]),
                    project: Some(segments[1]),
                    name: segments[2],
                },
            )
        }
    } else {
        Err(ParseError::MalformedIdentifier)
    }
}

/// What parsing `raw` gives.
pub open spec fn parse_spec(raw: Seq<char>) -> Result<IdentifierView, ParseError> {
    identifier_of(split_on(raw, SEPARATOR))
}

impl IdentifierView {
    /// The segments that are present, in the order in which they are written.
    pub open spec fn segments(self) -> Seq<Seq<char>> {
        match (self.account, self.project) {
            (Some(a), Some(p)) => seq![a, p, self.name],
            (None, Some(p)) => seq![p, self.name],
            (Some(a), None) => seq![a, self.name],
            (None, None) => seq![self.name],
        }
    }

    /// The identifier written out.
    pub open spec fn text(self) -> Seq<char> {
        join_with(self.segments(), seq![SEPARATOR])
    }

    /// Every segment that is present is non-empty and free of the separator,
    /// and an account comes only with a project.
    pub open spec fn well_formed(self) -> bool {
        &&& self.account is Some ==> self.project is Some
        &&& separator_free(self.segments(), SEPARATOR)
        &&& forall|i: int| 0 <= i < self.segments().len() ==> #[trigger] self.segments()[i].len() > 0
    }
}

impl View for ComponentIdentifier {
    type V = IdentifierView;

    closed spec fn view(&self) -> IdentifierView {
        IdentifierView {
            account: opt_view(self.account),
            project: opt_view(self.project),
            name: self.name@,
        }
    }
}

/// Splits `raw` at every separator.
pub fn split_segments(raw: &str) -> (segments: Vec<String>)
    ensures
        views(segments@) == split_on(raw@, SEPARATOR),
{
    let n = raw.unicode_len();
    let mut segments: Vec<String> = Vec::new();
    let mut start: usize = 0;
    let mut i: usize = 0;
    assert(raw@.take(0) =~= Seq::<char>::empty());
    while i < n
        invariant
            n == raw@.len(),
            start <= i <= n,
            split_on(raw@.take(i as int), SEPARATOR) == views(segments@).push(
                raw@.subrange(start as int, i as int),
            ),
        decreases n - i,
    {
        let c = raw.get_char(i);
        let ghost piece = raw@.subrange(start as int, i as int);
        proof {
            let next = raw@.take(i + 1);
            assert(next.drop_last() =~= raw@.take(i as int));
        }
        if c == SEPARATOR {
            segments.push(String::from_str(raw.substring_char(start, i)));
            start = i + 1;
            proof {
                assert(raw@.subrange(start as int, i + 1) =~= Seq::<char>::empty());
            }
        } else {
            proof {
                assert(raw@.subrange(start as int, i + 1) =~= piece.push(c));
            }
        }
        i = i + 1;
    }
    proof {
        assert(raw@.take(n as int) =~= raw@);
    }
    segments.push(String::from_str(raw.substring_char(start, n)));
    segments
}

/// `value`, unless it is empty: then the error that names `kind`.
pub fn empty_checked(kind: SegmentKind, value: String) -> (checked: Result<String, ParseError>)
    ensures
        value@.len() == 0 ==> checked == Err::<String, ParseError>(
            ParseError::MissingSegment { kind },
        ),
        value@.len() > 0 ==> checked == Ok::<String, ParseError>(value),
{
    if value.as_str().is_empty() {
        Err(ParseError::MissingSegment { kind })
    } else {
        Ok(value)
    }
}

/// The view of a parse result.
pub open spec fn parsed_view(r: Result<ComponentIdentifier, ParseError>) -> Result<
    IdentifierView,
    ParseError,
> {
    match r {
        Ok(id) => Ok(id@),
        Err(e) => Err(e),
    }
}

impl ComponentIdentifier {
    #[verifier::type_invariant]
    spec fn is_well_formed(self) -> bool {
        self@.well_formed()
    }

    /// The account, where the identifier names one.
    pub fn account(&self) -> (account: Option<&String>)
        ensures
            opt_view(
                match account {
                    Some(a) => Some(*a),
                    None => None,
                },
            ) == self@.account,
            self@.well_formed(),
    {
        proof {
            use_type_invariant(self);
        }
        self.account.as_ref()
    }

    /// The project, where the identifier names one.
    pub fn project(&self) -> (project: Option<&String>)
        ensures
            opt_view(
                match project {
                    Some(p) => Some(*p),
                    None => None,
                },
            ) == self@.project,
            self@.well_formed(),
    {
        proof {
            use_type_invariant(self);
        }
        self.project.as_ref()
    }

    /// The name of the component.
    pub fn name(&self) -> (name: &String)
        ensures
            name@ == self@.name,
            self@.well_formed(),
    {
        proof {
            use_type_invariant(self);
        }
        &self.name
    }

    /// The account, the project and the name of the component.
    pub fn into_parts(self) -> (parts: (Option<String>, Option<String>, String))
        ensures
            opt_view(parts.0) == self@.account,
            opt_view(parts.1) == self@.project,
            parts.2@ == self@.name,
            self@.well_formed(),
    {
        proof {
            use_type_invariant(&self);
        }
        (self.account, self.project, self.name)
    }

    /// Parses `name`, `project/name` or `account/project/name`.
    ///
    /// Succeeds exactly on one to three segments that are all non-empty. With
    /// several empty segments the error names the leftmost.
    pub fn parse(raw: &str) -> (parsed: Result<ComponentIdentifier, ParseError>)
        ensures
            parsed_view(parsed) == parse_spec(raw@),
            parsed is Ok ==> parsed->Ok_0@.well_formed(),
    {
        let mut segments = split_segments(raw);
        proof {
            lemma_join_split(raw@, SEPARATOR);
        }
        let count = segments.len();
        if count == 1 {
            let name = segments.pop().unwrap();
            match empty_checked(SegmentKind::Component, name) {
                Err(e) => Err(e),
                Ok(name) => {
                    proof {
                        let id = IdentifierView { account: None, project: None, name: name@ };
                    }
                    Ok(ComponentIdentifier { account: None, project: None, name })
                },
            }
        } else if count == 2 {
            let name = segments.pop().unwrap();
            let project = segments.pop().unwrap();
            match empty_checked(SegmentKind::Project, project) {
                Err(e) => Err(e),
                Ok(project) => match empty_checked(SegmentKind::Component, name) {
                    Err(e) => Err(e),
                    Ok(name) => {
                        proof {
                            let id = IdentifierView {
                                account: None,
                                project: Some(project@),
                                name: name@,
                            };
                        }
                        Ok(ComponentIdentifier { account: None, project: Some(project), name })
                    },
                },
            }
        } else if count == 3 {
            let name = segments.pop().unwrap();
            let project = segments.pop().unwrap();
            let account = segments.pop().unwrap();
            match empty_checked(SegmentKind::Account, account) {
                Err(e) => Err(e),
                Ok(account) => match empty_checked(SegmentKind::Project, project) {
                    Err(e) => Err(e),
                    Ok(project) => match empty_checked(SegmentKind::Component, name) {
                        Err(e) => Err(e),
                        Ok(name) => {
                            proof {
                                let id = IdentifierView {
                                    account: Some(account@),
                                    project: Some(project@),
                                    name: name@,
                                };
                            }
                            Ok(
                                ComponentIdentifier {
                                    account: Some(account),
                                    project: Some(project),
                                    name,
                                },
                            )
                        },
                    },
                },
            }
        } else {
            Err(ParseError::MalformedIdentifier)
        }
    }

    /// The identifier written out: its segments with `/` between them.
    /// Parsing the text gives the identifier back.
    pub fn to_string(&self) -> (text: String)
        ensures
            text@ == self@.text(),
            parse_spec(text@) == Ok::<IdentifierView, ParseError>(self@),
    {
        proof {
            use_type_invariant(self);
            law_write_then_parse(self@);
            reveal_strlit("/");
            assert("/"@ =~= seq![SEPARATOR]);
        }
        let mut text = String::new();
        match &self.account {
            Some(account) => {
                text.append(account.as_str());
                text.append("/");
            },
            None => {},
        }
        match &self.project {
            Some(project) => {
                text.append(project.as_str());
                text.append("/");
            },
            None => {},
        }
        text.append(self.name.as_str());
        proof {
            let sep = seq![SEPARATOR];
            let parts = self@.segments();
            if parts.len() == 2 {
                assert(join_with(parts.drop_last(), sep) == parts[0]);
            } else if parts.len() == 3 {
                let two = parts.drop_last();
                assert(join_with(two.drop_last(), sep) == parts[0]);
                assert(join_with(two, sep) == parts[0] + sep + parts[1]);
            }
        }
        text
    }
}

/// Text without a separator only lengthens the last segment.
pub proof fn lemma_split_append_free(a: Seq<char>, b: Seq<char>, sep: char)
    requires
        forall|j: int| 0 <= j < b.len() ==> b[j] != sep,
    ensures
        split_on(a + b, sep) == split_on(a, sep).drop_last().push(split_on(a, sep).last() + b),
    decreases b.len(),
{
    let parts = split_on(a, sep);
    if b.len() > 0 {
        let shorter = b.drop_last();
        lemma_split_append_free(a, shorter, sep);
        assert((a + b).drop_last() =~= a + shorter);
        let init = split_on(a + shorter, sep);
        assert(init.last().push(b.last()) =~= parts.last() + b);
    }
}

/// Splitting the joined text gives the parts back, when none of them holds
/// the separator.
pub proof fn lemma_split_join(parts: Seq<Seq<char>>, sep: char)
    requires
        parts.len() >= 1,
        separator_free(parts, sep),
    ensures
        split_on(join_with(parts, seq![sep]), sep) == parts,
    decreases parts.len(),
{
    let first = Seq::<char>::empty();
    if parts.len() == 1 {
        lemma_split_append_free(first, parts[0], sep);
    } else {
        let init = parts.drop_last();
        lemma_split_join(init, sep);
        let head = join_with(init, seq![sep]);
        let opened = head + seq![sep];
        assert(opened.drop_last() =~= head);
        lemma_split_append_free(opened, parts.last(), sep);
    }
}

/// One more character at the end of the last part is one more character at
/// the end of the joined text.
proof fn lemma_join_extend_last(parts: Seq<Seq<char>>, c: char, sep: Seq<char>)
    requires
        parts.len() >= 1,
    ensures
        join_with(parts.drop_last().push(parts.last().push(c)), sep) == join_with(parts, sep).push(
            c,
        ),
{
    let grown = parts.drop_last().push(parts.last().push(c));
    if parts.len() > 1 {
        assert(grown.drop_last() =~= parts.drop_last());
    }
}

/// Joining the segments of a text gives the text back, and no segment holds
/// the separator.
pub proof fn lemma_join_split(s: Seq<char>, sep: char)
    ensures
        split_on(s, sep).len() >= 1,
        separator_free(split_on(s, sep), sep),
        join_with(split_on(s, sep), seq![sep]) == s,
    decreases s.len(),
{
    if s.len() > 0 {
        let t = s.drop_last();
        let init = split_on(t, sep);
        lemma_join_split(t, sep);
        if s.last() == sep {
            let parts = init.push(Seq::<char>::empty());
            assert(parts.drop_last() =~= init);
        } else {
            lemma_join_extend_last(init, s.last(), seq![sep]);
        }
    }
}

/// One to three non-empty segments without a separator, written with `/`
/// between them, parse to exactly those segments.
pub proof fn law_parse_recovers_segments(segments: Seq<Seq<char>>)
    requires
        1 <= segments.len() <= 3,
        separator_free(segments, SEPARATOR),
        forall|i: int| 0 <= i < segments.len() ==> #[trigger] segments[i].len() > 0,
    ensures
        parse_spec(join_with(segments, seq![SEPARATOR])) is Ok,
        parse_spec(join_with(segments, seq![SEPARATOR]))->Ok_0.segments() == segments,
        parse_spec(join_with(segments, seq![SEPARATOR]))->Ok_0.well_formed(),
{
    lemma_split_join(segments, SEPARATOR);
}

/// Four or more segments never parse.
pub proof fn law_parse_rejects_other_counts(segments: Seq<Seq<char>>)
    requires
        segments.len() >= 4,
        separator_free(segments, SEPARATOR),
    ensures
        parse_spec(join_with(segments, seq![SEPARATOR])) == Err::<IdentifierView, ParseError>(
            ParseError::MalformedIdentifier,
        ),
{
    lemma_split_join(segments, SEPARATOR);
}

/// No text has fewer than one segment or parses when it has more than three.
pub proof fn law_parse_needs_one_to_three_segments(raw: Seq<char>)
    ensures
        split_on(raw, SEPARATOR).len() >= 1,
        parse_spec(raw) is Ok ==> split_on(raw, SEPARATOR).len() <= 3,
        split_on(raw, SEPARATOR).len() > 3 ==> parse_spec(raw) == Err::<IdentifierView, ParseError>(
            ParseError::MalformedIdentifier,
        ),
{
}

/// With exactly one empty segment among one to three, parsing fails and
/// names the role of that segment.
pub proof fn law_parse_names_empty_segment(segments: Seq<Seq<char>>, empty: int)
    requires
        1 <= segments.len() <= 3,
        separator_free(segments, SEPARATOR),
        0 <= empty < segments.len(),
        segments[empty].len() == 0,
        forall|i: int| 0 <= i < segments.len() && i != empty ==> #[trigger] segments[i].len() > 0,
    ensures
        parse_spec(join_with(segments, seq![SEPARATOR])) == Err::<IdentifierView, ParseError>(
            ParseError::MissingSegment { kind: role_of(segments.len() as int, empty) },
        ),
{
    lemma_split_join(segments, SEPARATOR);
}

/// Whatever parses is well formed, and writing it out gives the text that
/// was parsed.
pub proof fn law_parse_then_write(raw: Seq<char>)
    requires
        parse_spec(raw) is Ok,
    ensures
        parse_spec(raw)->Ok_0.well_formed(),
        parse_spec(raw)->Ok_0.text() == raw,
{
    lemma_join_split(raw, SEPARATOR);
    let segments = split_on(raw, SEPARATOR);
    let id = parse_spec(raw)->Ok_0;
    assert(id.segments() =~= segments);
}

/// A well-formed identifier, written out and parsed, is the same identifier.
pub proof fn law_write_then_parse(id: IdentifierView)
    requires
        id.well_formed(),
    ensures
        parse_spec(id.text()) == Ok::<IdentifierView, ParseError>(id),
{
    let segments = id.segments();
    lemma_split_join(segments, SEPARATOR);
}

} // verus!
