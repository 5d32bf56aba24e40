//! The action's inputs: where they come from and how they are checked.
//!
//! The runner hands each `inputs.<name>` to the process as the environment
//! variable `INPUT_<NAME>` (spaces become underscores, then the name is
//! upper-cased; hyphens are kept). Reading the environment is left to the
//! caller; this module turns the raw values into typed [`ActionInputs`].

use vstd::prelude::*;

use crate::text::{
    chars_of, concat2, concat3, number_error_text, parse_u64, parse_u64_spec, push_char, str_eq,
    to_owned_string, trim, trim_bounds, NumberError,
};

verus! {

/// `str::to_uppercase` of `s` (full Unicode upper-casing).
pub uninterp spec fn unicode_uppercase(s: Seq<char>) -> Seq<char>;

/// `str::to_uppercase`.
///
/// Trusted: the result is the named [`unicode_uppercase`] of `s`.
#[verifier::external_body]
fn to_uppercase(s: &str) -> (r: String)
    ensures
        r@ == unicode_uppercase(s@),
{
    s.to_uppercase()
}

/// `s` with every space replaced by an underscore.
pub open spec fn spaces_to_underscores(s: Seq<char>) -> Seq<char> {
    Seq::new(s.len(), |i: int| if s[i] == ' ' { '_' } else { s[i] })
}

/// The environment variable that carries input `name`: `INPUT_` followed by
/// the name with spaces turned into underscores and then upper-cased.
pub open spec fn input_env_name_spec(name: Seq<char>) -> Seq<char> {
    "INPUT_"@ + unicode_uppercase(spaces_to_underscores(name))
}

/// Name of the environment variable for input `name`, as `@actions/core`
/// derives it.
pub fn input_env_name(name: &str) -> (r: String)
    ensures
        r@ == input_env_name_spec(name@),
{
    let chars = chars_of(name);
    let mut out = String::new();
    let mut i: usize = 0;
    while i < chars.len()
        invariant
            chars@ == name@,
            i <= chars@.len(),
            out@ == spaces_to_underscores(chars@).subrange(0, i as int),
        decreases chars@.len() - i,
    {
        let c = chars[i];
        if c == ' ' {
            push_char(&mut out, '_');
        } else {
            push_char(&mut out, c);
        }
        i = i + 1;
        assert(out@ =~= spaces_to_underscores(chars@).subrange(0, i as int));
    }
    assert(spaces_to_underscores(chars@).subrange(0, i as int) =~= spaces_to_underscores(name@));
    let upper = to_uppercase(out.as_str());
    concat2("INPUT_", upper.as_str())
}

/// The names of every input the action reads.
pub fn input_names() -> (v: Vec<&'static str>)
    ensures
        v@.map_values(|s: &str| s@) == seq![
            "github-token"@,
            "number"@,
            "merge-method"@,
            "allowed-usernames-regex"@,
            "filter-label"@,
            "merge-title"@,
            "merge-message"@,
        ],
{
    let mut v: Vec<&'static str> = Vec::new();
    v.push("github-token");
    v.push("number");
    v.push("merge-method");
    v.push("allowed-usernames-regex");
    v.push("filter-label");
    v.push("merge-title");
    v.push("merge-message");
    assert(v@.map_values(|s: &str| s@) =~= seq![
        "github-token"@,
        "number"@,
        "merge-method"@,
        "allowed-usernames-regex"@,
        "filter-label"@,
        "merge-title"@,
        "merge-message"@,
    ]);
    v
}

/// A source of raw input values. The runner's environment is one; a fixed
/// table ([`MapSource`]) is another.
pub trait InputSource {
    /// The value the source holds for input `name`, if any.
    spec fn input(&self, name: Seq<char>) -> Option<Seq<char>>;

    /// Looks up input `name`.
    fn get(&self, name: &str) -> (r: Option<String>)
        ensures
            r.deep_view() == self.input(name@),
    ;
}

/// The value stored last under `name` in `entries`, if any.
pub open spec fn last_value(entries: Seq<(Seq<char>, Seq<char>)>, name: Seq<char>) -> Option<
    Seq<char>,
>
    decreases entries.len(),
{
    if entries.len() == 0 {
        None
    } else if entries.last().0 == name {
        Some(entries.last().1)
    } else {
        last_value(entries.drop_last(), name)
    }
}

/// The names of `entries`, in order.
pub open spec fn entry_names(entries: Seq<(Seq<char>, Seq<char>)>) -> Seq<Seq<char>> {
    entries.map_values(|e: (Seq<char>, Seq<char>)| e.0)
}

/// `pairs` with each name and value as a character sequence.
pub open spec fn string_pairs(pairs: Seq<(String, String)>) -> Seq<(Seq<char>, Seq<char>)> {
    pairs.map_values(|p: (String, String)| (p.0@, p.1@))
}

/// `pairs` with each name and value as a character sequence.
pub open spec fn str_pairs(pairs: Seq<(&str, &str)>) -> Seq<(Seq<char>, Seq<char>)> {
    pairs.map_values(|p: (&str, &str)| (p.0@, p.1@))
}

/// Appending `(k, v)` makes `v` the value of `k` and leaves every other
/// name as it was.
pub proof fn lemma_last_value_push(
    entries: Seq<(Seq<char>, Seq<char>)>,
    k: Seq<char>,
    v: Seq<char>,
    name: Seq<char>,
)
    ensures
        last_value(entries.push((k, v)), name) == (if name == k {
            Some(v)
        } else {
            last_value(entries, name)
        }),
{
    assert(entries.push((k, v)).drop_last() =~= entries);
}

/// In a table without repeated names, overwriting the value of entry `j`
/// changes the value of that entry's name and of no other.
pub proof fn lemma_last_value_update(
    entries: Seq<(Seq<char>, Seq<char>)>,
    j: int,
    v: Seq<char>,
    name: Seq<char>,
)
    requires
        0 <= j < entries.len(),
        entry_names(entries).no_duplicates(),
    ensures
        last_value(entries.update(j, (entries[j].0, v)), name) == (if name == entries[j].0 {
            Some(v)
        } else {
            last_value(entries, name)
        }),
    decreases entries.len(),
{
    let k = entries[j].0;
    let u = entries.update(j, (k, v));
    let n = entries.len() - 1;
    if j == n {
        assert(u.drop_last() =~= entries.drop_last());
    } else {
        assert(entry_names(entries)[j] == k);
        assert(entry_names(entries)[n] == entries[n].0);
        assert(u.last() == entries.last());
        assert(u.drop_last() =~= entries.drop_last().update(j, (k, v)));
        assert(entry_names(entries.drop_last()) =~= entry_names(entries).drop_last());
        assert(entries.drop_last()[j] == entries[j]);
        lemma_last_value_update(entries.drop_last(), j, v, name);
    }
}

/// A fixed table of input values, one entry per name. Where the pairs it is
/// built from name an input more than once, the last value wins.
#[derive(Debug, Clone, Default)]
pub struct MapSource {
    pub values: Vec<(String, String)>,
}

/// The index of the entry named `name`, if any.
fn position(values: &Vec<(String, String)>, name: &str) -> (r: Option<usize>)
    ensures
        match r {
            Some(j) => j < values@.len() && values@[j as int].0@ == name@,
            None => forall|i: int| 0 <= i < values@.len() ==> values@[i].0@ != name@,
        },
{
    let mut j: usize = 0;
    while j < values.len()
        invariant
            j <= values@.len(),
            forall|i: int| 0 <= i < j ==> values@[i].0@ != name@,
        decreases values@.len() - j,
    {
        if str_eq(values[j].0.as_str(), name) {
            return Some(j);
        }
        j = j + 1;
    }
    None
}

impl MapSource {
    /// The table as `(name, value)` pairs of character sequences.
    pub open spec fn entries(&self) -> Seq<(Seq<char>, Seq<char>)> {
        string_pairs(self.values@)
    }

    /// No name occurs twice in the table.
    pub open spec fn well_formed(&self) -> bool {
        entry_names(self.entries()).no_duplicates()
    }

    /// A table holding, for each name among `pairs`, the last value given
    /// for it: one entry per distinct name.
    pub fn new(pairs: &[(&str, &str)]) -> (s: Self)
        ensures
            s.well_formed(),
            forall|name: Seq<char>| #[trigger] s.input(name) == last_value(str_pairs(pairs@), name),
            entry_names(s.entries()).to_set() == entry_names(str_pairs(pairs@)).to_set(),
            s.values@.len() == entry_names(str_pairs(pairs@)).to_set().len(),
    {
        let mut values: Vec<(String, String)> = Vec::new();
        let mut i: usize = 0;
        assert(str_pairs(pairs@.subrange(0, 0)) =~= Seq::<(Seq<char>, Seq<char>)>::empty());
        assert(string_pairs(values@) =~= Seq::<
            (Seq<char>, Seq<char>),
        >::empty());
        assert(entry_names(Seq::<(Seq<char>, Seq<char>)>::empty()).to_set() =~= Set::empty());
        while i < pairs.len()
            invariant
                i <= pairs@.len(),
                entry_names(string_pairs(values@)).no_duplicates(),
                forall|name: Seq<char>|
                    #[trigger] last_value(
                        string_pairs(values@),
                        name,
                    ) == last_value(str_pairs(pairs@.subrange(0, i as int)), name),
                entry_names(string_pairs(values@)).to_set()
                    == entry_names(str_pairs(pairs@.subrange(0, i as int))).to_set(),
            decreases pairs@.len() - i,
        {
            let ghost old_entries = string_pairs(values@);
            let ghost prefix = str_pairs(pairs@.subrange(0, i as int));
            let (k, v) = pairs[i];
            assert((k, v) == pairs@[i as int]);
            let ghost next = str_pairs(pairs@.subrange(0, i + 1));
            assert(next =~= prefix.push((k@, v@)));
            assert(entry_names(next) =~= entry_names(prefix).push(k@));
            proof {
                entry_names(prefix).lemma_push_to_set_commute(k@);
                entry_names(old_entries).lemma_push_to_set_commute(k@);
            }
            let entry = (to_owned_string(k), to_owned_string(v));
            match position(&values, k) {
                Some(j) => {
                    values.set(j, entry);
                    let ghost new_entries = string_pairs(values@);
                    assert(old_entries[j as int].0 == k@);
                    assert(new_entries =~= old_entries.update(j as int, (k@, v@)));
                    assert(entry_names(new_entries) =~= entry_names(old_entries));
                    assert forall|name: Seq<char>|
                        #[trigger] last_value(new_entries, name) == last_value(next, name) by {
                        lemma_last_value_update(old_entries, j as int, v@, name);
                        lemma_last_value_push(prefix, k@, v@, name);
                    }
                    assert(entry_names(old_entries).contains(k@)) by {
                        assert(entry_names(old_entries)[j as int] == k@);
                    }
                    assert(entry_names(next).to_set() =~= entry_names(prefix).to_set().insert(
                        k@,
                    ));
                    assert(entry_names(new_entries).to_set() =~= entry_names(next).to_set());
                },
                None => {
                    values.push(entry);
                    let ghost new_entries = string_pairs(values@);
                    assert(new_entries =~= old_entries.push((k@, v@)));
                    assert(entry_names(new_entries) =~= entry_names(old_entries).push(k@));
                    assert forall|name: Seq<char>|
                        #[trigger] last_value(new_entries, name) == last_value(next, name) by {
                        lemma_last_value_push(old_entries, k@, v@, name);
                        lemma_last_value_push(prefix, k@, v@, name);
                    }
                    assert forall|a: int, b: int|
                        0 <= a < entry_names(new_entries).len() && 0 <= b < entry_names(
                            new_entries,
                        ).len() && a != b implies entry_names(new_entries)[a] != entry_names(
                        new_entries,
                    )[b] by {
                        if a < old_entries.len() && b < old_entries.len() {
                            assert(entry_names(new_entries)[a] == entry_names(old_entries)[a]);
                            assert(entry_names(new_entries)[b] == entry_names(old_entries)[b]);
                        } else if a < old_entries.len() {
                            assert(values@[a].0@ != k@);
                        } else {
                            assert(values@[b].0@ != k@);
                        }
                    }
                },
            }
            i = i + 1;
        }
        assert(pairs@.subrange(0, i as int) =~= pairs@);
        let s = MapSource { values };
        assert(entry_names(s.entries()).len() == s.values@.len());
        proof {
            entry_names(s.entries()).unique_seq_to_set();
        }
        s
    }
}

impl InputSource for MapSource {
    open spec fn input(&self, name: Seq<char>) -> Option<Seq<char>> {
        last_value(self.entries(), name)
    }

    fn get(&self, name: &str) -> (r: Option<String>) {
        let mut i: usize = self.values.len();
        assert(self.entries().subrange(0, i as int) =~= self.entries());
        while i > 0
            invariant
                i <= self.values@.len(),
                last_value(self.entries(), name@) == last_value(
                    self.entries().subrange(0, i as int),
                    name@,
                ),
            decreases i,
        {
            let ghost prefix = self.entries().subrange(0, i as int);
            assert(prefix.drop_last() =~= self.entries().subrange(0, i - 1));
            if str_eq(self.values[i - 1].0.as_str(), name) {
                return Some(self.values[i - 1].1.clone());
            }
            i = i - 1;
        }
        assert(self.entries().subrange(0, 0).len() == 0);
        None
    }
}

/// How the pull request is merged.
#[derive(Debug, Clone, Copy, PartialEq, Eq, Structural)]
pub enum MergeMethod {
    Merge,
    Squash,
    Rebase,
    FastForward,
    FastForwardOrMerge,
}

/// The merge method a `merge-method` input names, if any.
pub open spec fn merge_method_from(s: Seq<char>) -> Option<MergeMethod> {
    if s == "merge"@ {
        Some(MergeMethod::Merge)
    } else if s == "squash"@ {
        Some(MergeMethod::Squash)
    } else if s == "rebase"@ {
        Some(MergeMethod::Rebase)
    } else if s == "fast-forward"@ {
        Some(MergeMethod::FastForward)
    } else if s == "fast-forward_or_merge"@ {
        Some(MergeMethod::FastForwardOrMerge)
    } else {
        None
    }
}

/// A rejected input.
#[derive(Debug, Clone)]
pub enum InputError {
    /// A required input is absent or empty.
    Missing { name: String },
    /// `number` is not an unsigned decimal number.
    InvalidNumber { reason: NumberError },
    /// `merge-method` names no known method.
    InvalidMergeMethod { value: String },
}

/// [`InputError`] with its strings as character sequences.
pub enum InputErrorView {
    Missing(Seq<char>),
    InvalidNumber(NumberError),
    InvalidMergeMethod(Seq<char>),
}

impl View for InputError {
    type V = InputErrorView;

    open spec fn view(&self) -> InputErrorView {
        match self {
            InputError::Missing { name } => InputErrorView::Missing(name@),
            InputError::InvalidNumber { reason } => InputErrorView::InvalidNumber(*reason),
            InputError::InvalidMergeMethod { value } => InputErrorView::InvalidMergeMethod(value@),
        }
    }
}

/// The message that reports each input error.
pub open spec fn input_error_message(e: InputErrorView) -> Seq<char> {
    match e {
        InputErrorView::Missing(name) => "Input required and not supplied: "@ + name,
        InputErrorView::InvalidNumber(reason) => "Input 'number' must be a positive integer: "@
            + number_error_text(reason),
        InputErrorView::InvalidMergeMethod(value) => "invalid merge-method '"@ + value
            + "': expected one of merge, squash, rebase, fast-forward, fast-forward_or_merge"@,
    }
}

impl InputError {
    /// The human-readable message for this error.
    pub fn message(&self) -> (s: String)
        ensures
            s@ == input_error_message(self@),
    {
        match self {
            InputError::Missing { name } => concat2(
                "Input required and not supplied: ",
                name.as_str(),
            ),
            InputError::InvalidNumber { reason } => concat2(
                "Input 'number' must be a positive integer: ",
                reason.description(),
            ),
            InputError::InvalidMergeMethod { value } => concat3(
                "invalid merge-method '",
                value.as_str(),
                "': expected one of merge, squash, rebase, fast-forward, fast-forward_or_merge",
            ),
        }
    }
}

impl MergeMethod {
    /// Reads a `merge-method` input.
    pub fn parse(s: &str) -> (r: Result<MergeMethod, InputError>)
        ensures
            r is Ok <==> merge_method_from(s@) is Some,
            r matches Ok(m) ==> merge_method_from(s@) == Some(m),
            r matches Err(e) ==> e@ == InputErrorView::InvalidMergeMethod(s@),
    {
        if str_eq(s, "merge") {
            Ok(MergeMethod::Merge)
        } else if str_eq(s, "squash") {
            Ok(MergeMethod::Squash)
        } else if str_eq(s, "rebase") {
            Ok(MergeMethod::Rebase)
        } else if str_eq(s, "fast-forward") {
            Ok(MergeMethod::FastForward)
        } else if str_eq(s, "fast-forward_or_merge") {
            Ok(MergeMethod::FastForwardOrMerge)
        } else {
            Err(InputError::InvalidMergeMethod { value: to_owned_string(s) })
        }
    }
}

/// A required input's value: present and not empty.
pub open spec fn required_value(v: Option<Seq<char>>) -> Option<Seq<char>> {
    match v {
        Some(s) => if s.len() > 0 {
            Some(s)
        } else {
            None
        },
        None => None,
    }
}

/// An optional input's value: the given one unless absent or empty.
pub open spec fn optional_value(v: Option<Seq<char>>, default: Seq<char>) -> Seq<char> {
    match v {
        Some(s) => if s.len() > 0 {
            s
        } else {
            default
        },
        None => default,
    }
}

fn required<S: InputSource>(src: &S, name: &str) -> (r: Result<String, InputError>)
    ensures
        match required_value(src.input(name@)) {
            Some(v) => r matches Ok(s) && s@ == v,
            None => r matches Err(e) && e@ == InputErrorView::Missing(name@),
        },
{
    match src.get(name) {
        Some(value) => {
            if value.as_str().is_empty() {
                Err(InputError::Missing { name: to_owned_string(name) })
            } else {
                Ok(value)
            }
        },
        None => Err(InputError::Missing { name: to_owned_string(name) }),
    }
}

fn optional<S: InputSource>(src: &S, name: &str, default: &str) -> (r: String)
    ensures
        r@ == optional_value(src.input(name@), default@),
{
    match src.get(name) {
        Some(value) => {
            if value.as_str().is_empty() {
                to_owned_string(default)
            } else {
                value
            }
        },
        None => to_owned_string(default),
    }
}

/// The first problem with the raw values of the three inputs that are
/// checked, in the order they are read: the token, the number, the merge
/// method.
pub open spec fn input_error(
    token: Option<Seq<char>>,
    number: Option<Seq<char>>,
    method: Option<Seq<char>>,
) -> Option<InputErrorView> {
    if required_value(token) is None {
        Some(InputErrorView::Missing("github-token"@))
    } else if required_value(number) is None {
        Some(InputErrorView::Missing("number"@))
    } else if parse_u64_spec(trim(number->0)) is Err {
        Some(InputErrorView::InvalidNumber(parse_u64_spec(trim(number->0))->Err_0))
    } else if merge_method_from(optional_value(method, "merge"@)) is None {
        Some(InputErrorView::InvalidMergeMethod(optional_value(method, "merge"@)))
    } else {
        None
    }
}

/// Strongly typed inputs to the action.
#[derive(Debug, Clone)]
pub struct ActionInputs {
    pub github_token: String,
    pub number: u64,
    pub merge_method: MergeMethod,
    pub allowed_usernames_regex: String,
    pub filter_label: String,
    pub merge_title: String,
    pub merge_message: String,
}

impl ActionInputs {
    /// Reads and checks every input from `src`. `github-token` and `number`
    /// are required; `merge-method` defaults to `merge`,
    /// `allowed-usernames-regex` to `^.*$`, and `filter-label`,
    /// `merge-title` and `merge-message` to the empty string. An empty value
    /// counts as absent.
    pub fn from_source<S: InputSource>(src: &S) -> (r: Result<Self, InputError>)
        ensures
            ({
                let err = input_error(
                    src.input("github-token"@),
                    src.input("number"@),
                    src.input("merge-method"@),
                );
                &&& r is Err <==> err is Some
                &&& r matches Err(e) ==> err == Some(e@)
                &&& r matches Ok(inp) ==> {
                    &&& Some(inp.github_token@) == required_value(src.input("github-token"@))
                    &&& Ok::<u64, NumberError>(inp.number) == parse_u64_spec(
                        trim(src.input("number"@)->0),
                    )
                    &&& Some(inp.merge_method) == merge_method_from(
                        optional_value(src.input("merge-method"@), "merge"@),
                    )
                    &&& inp.allowed_usernames_regex@ == optional_value(
                        src.input("allowed-usernames-regex"@),
                        "^.*$"@,
                    )
                    &&& inp.filter_label@ == optional_value(src.input("filter-label"@), ""@)
                    &&& inp.merge_title@ == optional_value(src.input("merge-title"@), ""@)
                    &&& inp.merge_message@ == optional_value(src.input("merge-message"@), ""@)
                }
            }),
    {
        let github_token = match required(src, "github-token") {
            Ok(v) => v,
            Err(e) => return Err(e),
        };
        let number_raw = match required(src, "number") {
            Ok(v) => v,
            Err(e) => return Err(e),
        };
        let chars = chars_of(number_raw.as_str());
        let (lo, hi) = trim_bounds(&chars);
        let number = match parse_u64(&chars, lo, hi) {
            Ok(n) => n,
            Err(reason) => return Err(InputError::InvalidNumber { reason }),
        };
        let merge_method_raw = optional(src, "merge-method", "merge");
        let merge_method = match MergeMethod::parse(merge_method_raw.as_str()) {
            Ok(m) => m,
            Err(e) => return Err(e),
        };
        let allowed_usernames_regex = optional(src, "allowed-usernames-regex", "^.*$");
        let filter_label = optional(src, "filter-label", "");
        let merge_title = optional(src, "merge-title", "");
        let merge_message = optional(src, "merge-message", "");
        Ok(ActionInputs {
            github_token,
            number,
            merge_method,
            allowed_usernames_regex,
            filter_label,
            merge_title,
            merge_message,
        })
    }
}

} // verus!
