//! What the command line asks for, turned into requests and values: which
//! artifact an argument names, what a typed line stands for, which tags a
//! line lists.

use vstd::prelude::*;
use crate::manifest::Verdict;
use crate::paths::{is_file_name, valid_file_name};
use crate::sequences::lemma_index_of_last;
use crate::text::{chars_of, split, trim, trim_range, trimmed};
use crate::transaction::{Request, RequestView};

verus! {

/// What can be added to a problem from the command line.
#[derive(Clone, Debug, PartialEq, Eq)]
pub enum AddArg {
    Statement,
    Solution { path: String, verdict: Option<Verdict> },
    Source { path: String },
}

/// What an `AddArg` holds.
pub enum AddArgView {
    Statement,
    Solution { path: Seq<char>, verdict: Option<Verdict> },
    Source { path: Seq<char> },
}

impl DeepView for AddArg {
    type V = AddArgView;

    open spec fn deep_view(&self) -> AddArgView {
        match *self {
            AddArg::Statement => AddArgView::Statement,
            AddArg::Solution { path, verdict } => AddArgView::Solution { path: path@, verdict },
            AddArg::Source { path } => AddArgView::Source { path: path@ },
        }
    }
}

impl View for AddArg {
    type V = AddArgView;

    open spec fn view(&self) -> AddArgView {
        self.deep_view()
    }
}

/// What can be removed from a problem from the command line.
#[derive(Clone, Debug, PartialEq, Eq)]
pub enum RemoveArg {
    Statement,
    Solution { path: String },
    Source { path: String },
}

/// What a `RemoveArg` holds.
pub enum RemoveArgView {
    Statement,
    Solution { path: Seq<char> },
    Source { path: Seq<char> },
}

impl DeepView for RemoveArg {
    type V = RemoveArgView;

    open spec fn deep_view(&self) -> RemoveArgView {
        match *self {
            RemoveArg::Statement => RemoveArgView::Statement,
            RemoveArg::Solution { path } => RemoveArgView::Solution { path: path@ },
            RemoveArg::Source { path } => RemoveArgView::Source { path: path@ },
        }
    }
}

impl View for RemoveArg {
    type V = RemoveArgView;

    open spec fn view(&self) -> RemoveArgView {
        self.deep_view()
    }
}

/// The name that an artifact can go by: the file name given, if it is one
/// that can name a file.
pub open spec fn named(file_name: Option<Seq<char>>) -> Option<Seq<char>> {
    match file_name {
        Some(name) => if valid_file_name(name) {
            Some(name)
        } else {
            None
        },
        None => None,
    }
}

fn name_of(file_name: Option<String>) -> (name: Option<String>)
    ensures
        name.deep_view() == named(file_name.deep_view()),
{
    match file_name {
        Some(name) => if is_file_name(name.as_str()) {
            Some(name)
        } else {
            None
        },
        None => None,
    }
}

/// The request that an addition from the command line stands for.
///
/// The artifact takes the file name of the path given. A path that names a
/// file that is there is copied from; any other has an empty file created
/// under its name. A solution without a verdict is expected to be accepted.
/// A path without a file name, or with one that cannot name a file, and a
/// statement give no request.
pub open spec fn addition(arg: AddArgView, file_name: Option<Seq<char>>, is_file: bool) -> Option<
    RequestView,
> {
    match named(file_name) {
        None => None,
        Some(name) => match arg {
            AddArgView::Statement => None,
            AddArgView::Source { path } => Some(
                RequestView::AddSource {
                    name,
                    from: if is_file {
                        Some(path)
                    } else {
                        None
                    },
                },
            ),
            AddArgView::Solution { path, verdict } => Some(
                RequestView::AddSolution {
                    name,
                    from: if is_file {
                        Some(path)
                    } else {
                        None
                    },
                    verdict: match verdict {
                        Some(v) => v,
                        None => Verdict::AC,
                    },
                },
            ),
        },
    }
}

/// The request that a removal from the command line stands for: the artifact
/// is the one with the file name of the path given. A path without a file
/// name, or with one that cannot name a file, and a statement give no request.
pub open spec fn removal(arg: RemoveArgView, file_name: Option<Seq<char>>) -> Option<RequestView> {
    match named(file_name) {
        None => None,
        Some(name) => match arg {
            RemoveArgView::Statement => None,
            RemoveArgView::Source { .. } => Some(RequestView::RemoveSource { name }),
            RemoveArgView::Solution { .. } => Some(RequestView::RemoveSolution { name }),
        },
    }
}

/// Turns an addition from the command line into a request. `file_name` is
/// the last component of the path in `arg`, if it has one, and `is_file` says
/// whether a file stands at that path.
pub fn add_request(arg: AddArg, file_name: Option<String>, is_file: bool) -> (request: Option<
    Request,
>)
    ensures
        request.deep_view() == addition(arg@, file_name.deep_view(), is_file),
{
    let name = match name_of(file_name) {
        Some(name) => name,
        None => {
            return None;
        },
    };
    match arg {
        AddArg::Statement => None,
        AddArg::Source { path } => {
            let from = if is_file {
                Some(path)
            } else {
                None
            };
            Some(Request::AddSource { name, from })
        },
        AddArg::Solution { path, verdict } => {
            let from = if is_file {
                Some(path)
            } else {
                None
            };
            let verdict = match verdict {
                Some(v) => v,
                None => Verdict::default(),
            };
            Some(Request::AddSolution { name, from, verdict })
        },
    }
}

/// Turns a removal from the command line into a request. `file_name` is the
/// last component of the path in `arg`, if it has one.
pub fn remove_request(arg: RemoveArg, file_name: Option<String>) -> (request: Option<Request>)
    ensures
        request.deep_view() == removal(arg@, file_name.deep_view()),
{
    let name = match name_of(file_name) {
        Some(name) => name,
        None => {
            return None;
        },
    };
    match arg {
        RemoveArg::Statement => None,
        RemoveArg::Source { .. } => Some(Request::RemoveSource { name }),
        RemoveArg::Solution { .. } => Some(Request::RemoveSolution { name }),
    }
}

/// What a line typed at a prompt stands for: the line without the whitespace
/// around it, or `default` when nothing else is left of it.
pub open spec fn answer(line: Seq<char>, default: Seq<char>) -> Seq<char> {
    if trimmed(line).len() > 0 {
        trimmed(line)
    } else {
        default
    }
}

/// The fields that make tags: each one without the whitespace around it,
/// and only those of which something is left.
pub open spec fn kept(fields: Seq<Seq<char>>) -> Seq<Seq<char>> {
    fields.map_values(|field: Seq<char>| trimmed(field)).filter(|tag: Seq<char>| tag.len() > 0)
}

/// The tags in a line that lists them between commas.
pub open spec fn tags_of(line: Seq<char>) -> Seq<Seq<char>> {
    kept(split(line, ','))
}

/// What was typed at a prompt, or `default` for a blank line.
pub fn input_or_default(line: &str, default: String) -> (value: String)
    ensures
        value@ == answer(line@, default@),
{
    let typed = trim(line);
    if typed.as_str().unicode_len() == 0 {
        default
    } else {
        typed
    }
}

/// The fields before `start` are those of the text before the separator at
/// `start - 1`; the last field is what follows it.
proof fn lemma_split_last(s: Seq<char>, separator: char, start: int)
    requires
        0 <= start <= s.len(),
        start > 0 ==> s[start - 1] == separator,
        forall|j: int| start <= j < s.len() ==> s[j] != separator,
    ensures
        split(s, separator) == fields_before(s, separator, start).push(s.skip(start)),
{
    if start > 0 {
        lemma_index_of_last(s, separator, Some(start - 1));
    } else {
        lemma_index_of_last(s, separator, None);
        assert(s.skip(0) =~= s);
        assert(seq![s] =~= Seq::<Seq<char>>::empty().push(s));
    }
}

/// The fields that end before position `start`, which follows a separator or
/// is the beginning.
spec fn fields_before(s: Seq<char>, separator: char, start: int) -> Seq<Seq<char>> {
    if start > 0 {
        split(s.take(start - 1), separator)
    } else {
        Seq::empty()
    }
}

/// Closes the field `chars[start..end]`: keeps it, trimmed, unless nothing is
/// left of it.
fn close_field(tags: &mut Vec<String>, chars: &Vec<char>, start: usize, end: usize)
    requires
        start <= end <= chars.len(),
        start > 0 ==> chars@[start - 1] == ',',
        forall|j: int| start <= j < end ==> chars@[j] != ',',
        old(tags).deep_view() == kept(fields_before(chars@, ',', start as int)),
    ensures
        final(tags).deep_view() == kept(split(chars@.take(end as int), ',')),
{
    let tag = trim_range(chars, start, end);
    let ghost done = fields_before(chars@, ',', start as int);
    let ghost field = chars@.subrange(start as int, end as int);
    let ghost before = tags.deep_view();
    if tag.as_str().unicode_len() > 0 {
        tags.push(tag);
        assert(tags.deep_view() =~= before.push(trimmed(field)));
    }
    proof {
        let head = chars@.take(end as int);
        assert(fields_before(head, ',', start as int) =~= done) by {
            if start > 0 {
                assert(head.take(start - 1) =~= chars@.take(start - 1));
            }
        }
        lemma_split_last(head, ',', start as int);
        assert(head.skip(start as int) =~= field);
        done.lemma_push_map_commute(|f: Seq<char>| trimmed(f), field);
        done.map_values(|f: Seq<char>| trimmed(f)).lemma_filter_push(
            trimmed(field),
            |tag: Seq<char>| tag.len() > 0,
        );
    }
}

/// Reads the tags from a line that lists them between commas.
pub fn parse_tags(line: &str) -> (tags: Vec<String>)
    ensures
        tags.deep_view() == tags_of(line@),
{
    let chars = chars_of(line);
    let mut tags: Vec<String> = Vec::new();
    let mut start: usize = 0;
    let mut i: usize = 0;
    assert(tags.deep_view() =~= Seq::empty());
    assert(kept(Seq::empty()) =~= Seq::empty()) by {
        reveal(Seq::filter);
    }
    while i < chars.len()
        invariant
            start <= i <= chars.len(),
            chars@ == line@,
            start > 0 ==> chars@[start - 1] == ',',
            forall|j: int| start <= j < i ==> chars@[j] != ',',
            tags.deep_view() == kept(fields_before(chars@, ',', start as int)),
        decreases chars.len() - i,
    {
        if chars[i] == ',' {
            close_field(&mut tags, &chars, start, i);
            start = i + 1;
        }
        i += 1;
    }
    close_field(&mut tags, &chars, start, chars.len());
    assert(chars@.take(chars.len() as int) =~= chars@);
    tags
}

} // verus!
