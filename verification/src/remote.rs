//! The remote specifier: a `target_host:remote_name` pair parsed from a
//! single colon-delimited argument. Both parts must be non-empty; the split
//! happens at the first `:` of the input.

use vstd::prelude::*;
use vstd::string::StrSliceExecFns;

verus! {

/// A non-local apply destination: the host to apply on, and the name of the
/// configuration to build and apply there.
#[derive(Debug)]
pub struct Remote {
    pub target_host: String,
    pub remote_name: String,
}

/// The mathematical value of a [`Remote`]: its two fields as character
/// sequences.
pub struct RemoteSpec {
    pub target_host: Seq<char>,
    pub remote_name: Seq<char>,
}

impl View for Remote {
    type V = RemoteSpec;

    open spec fn view(&self) -> RemoteSpec {
        RemoteSpec { target_host: self.target_host@, remote_name: self.remote_name@ }
    }
}

impl DeepView for Remote {
    type V = RemoteSpec;

    open spec fn deep_view(&self) -> RemoteSpec {
        self.view()
    }
}

/// Why a remote specifier failed to parse.
#[derive(Debug, PartialEq, Eq, Structural, Clone, Copy)]
pub enum RemoteParseError {
    /// The input holds no `:` at all.
    MissingSeparator,
    /// The text before the first `:` is empty.
    EmptyTargetHost,
    /// The text after the first `:` is empty.
    EmptyRemoteName,
}

/// The first `:` of `s` stands at index `i`.
pub open spec fn splits_at(s: Seq<char>, i: int) -> bool {
    &&& 0 <= i < s.len()
    &&& s[i] == ':'
    &&& forall|j: int| 0 <= j < i ==> s[j] != ':'
}

/// `s` holds at least one `:`.
pub open spec fn has_separator(s: Seq<char>) -> bool {
    exists|i: int| 0 <= i < s.len() && s[i] == ':'
}

/// The index of the first `:` of `s`; meaningful only when `has_separator(s)`.
pub open spec fn sep_index(s: Seq<char>) -> int {
    choose|i: int| splits_at(s, i)
}

/// The text before the first `:`; meaningful only when `has_separator(s)`.
pub open spec fn spec_target_host(s: Seq<char>) -> Seq<char> {
    s.subrange(0, sep_index(s))
}

/// The text after the first `:`; meaningful only when `has_separator(s)`.
pub open spec fn spec_remote_name(s: Seq<char>) -> Seq<char> {
    s.subrange(sep_index(s) + 1, s.len() as int)
}

/// `s` is a well-formed remote specifier: it holds a `:`, and both the text
/// before the first `:` and the text after it are non-empty.
pub open spec fn parses(s: Seq<char>) -> bool {
    &&& has_separator(s)
    &&& spec_target_host(s).len() > 0
    &&& spec_remote_name(s).len() > 0
}

/// The error a malformed remote specifier is rejected with.
pub open spec fn spec_parse_error(s: Seq<char>) -> RemoteParseError {
    if !has_separator(s) {
        RemoteParseError::MissingSeparator
    } else if spec_target_host(s).len() == 0 {
        RemoteParseError::EmptyTargetHost
    } else {
        RemoteParseError::EmptyRemoteName
    }
}

/// At most one index can carry the first `:`.
pub proof fn lemma_splits_at_unique(s: Seq<char>, i: int, j: int)
    requires
        splits_at(s, i),
        splits_at(s, j),
    ensures
        i == j,
{
    if i < j {
        assert(s[i] != ':');
    } else if j < i {
        assert(s[j] != ':');
    }
}

/// Wherever some `:` stands in `s`, a first one does too.
pub proof fn lemma_first_separator_exists(s: Seq<char>, k: int)
    requires
        0 <= k < s.len(),
        s[k] == ':',
    ensures
        splits_at(s, sep_index(s)),
    decreases k,
{
    if forall|j: int| 0 <= j < k ==> s[j] != ':' {
        assert(splits_at(s, k));
    } else {
        let j = choose|j: int| 0 <= j < k && s[j] == ':';
        lemma_first_separator_exists(s, j);
    }
    let w = choose|i: int| splits_at(s, i);
    assert(splits_at(s, w));
}

/// Finds the index of the first `:` of `s`, if any.
fn find_separator(s: &str) -> (r: Option<usize>)
    ensures
        r matches Some(i) ==> splits_at(s@, i as int),
        r is None ==> !has_separator(s@),
{
    let n = s.unicode_len();
    let mut i: usize = 0;
    while i < n
        invariant
            n == s@.len(),
            i <= n,
            forall|j: int| 0 <= j < i ==> s@[j] != ':',
        decreases n - i,
    {
        if s.get_char(i) == ':' {
            return Some(i);
        }
        i = i + 1;
    }
    None
}

impl Remote {
    /// Both parts of the pair are non-empty.
    pub open spec fn wf(self) -> bool {
        &&& self@.target_host.len() > 0
        &&& self@.remote_name.len() > 0
    }

    /// Parses a `target_host:remote_name` specifier: succeeds exactly on the
    /// inputs that hold a `:` with non-empty text on both sides, splitting at
    /// the first `:`.
    pub fn from_str(s: &str) -> (r: Result<Remote, RemoteParseError>)
        ensures
            r is Ok <==> parses(s@),
            r matches Ok(rem) ==> {
                &&& rem@.target_host == spec_target_host(s@)
                &&& rem@.remote_name == spec_remote_name(s@)
                &&& rem.wf()
            },
            r matches Err(e) ==> e == spec_parse_error(s@),
    {
        let n = s.unicode_len();
        match find_separator(s) {
            None => Err(RemoteParseError::MissingSeparator),
            Some(i) => {
                proof {
                    lemma_first_separator_exists(s@, i as int);
                    lemma_splits_at_unique(s@, i as int, sep_index(s@));
                }
                if i == 0 {
                    Err(RemoteParseError::EmptyTargetHost)
                } else if i + 1 == n {
                    Err(RemoteParseError::EmptyRemoteName)
                } else {
                    let target_host = s.substring_char(0, i).to_owned();
                    let remote_name = s.substring_char(i + 1, n).to_owned();
                    Ok(Remote { target_host, remote_name })
                }
            },
        }
    }
}

} // verus!
