//! Shared vocabulary: identifiers, errors, text helpers and the abbreviation
//! matching that every keyword lookup goes through.

use vstd::prelude::*;
use vstd::std_specs::cmp::PartialEqSpec;
use vstd::string::StrSliceExecFns;

verus! {

/// Names one live node of the routing graph.
pub type Id = u32;

/// Client name announced to the MIDI transport.
pub const CLIENT_NAME: &'static str = "MidiMappingManager";

/// Why a node could not be created or configured.
#[derive(Clone, Copy, Debug, PartialEq, Eq, Structural)]
pub enum MMMErr {
    /// The MIDI transport could not be initialised.
    InitFailure,
    /// An input port could not be connected.
    InputFailure,
    /// An output port could not be created.
    OutputFailure,
    /// The name of a port could not be read.
    PortInfoFailure,
    /// Wrong number of arguments, or an argument out of range.
    ArgError,
    /// An argument that should be a number is not one.
    ParseError,
}

impl MMMErr {
    /// The one-line description of the error.
    pub fn message(&self) -> (res: &'static str)
        ensures
            res@ == match *self {
                MMMErr::InitFailure => "midi initialisation failure"@,
                MMMErr::InputFailure => "input connection failure"@,
                MMMErr::OutputFailure => "output connection failure"@,
                MMMErr::PortInfoFailure => "port information failure"@,
                MMMErr::ArgError => "argument error"@,
                MMMErr::ParseError => "parse error"@,
            },
    {
        match self {
            MMMErr::InitFailure => "midi initialisation failure",
            MMMErr::InputFailure => "input connection failure",
            MMMErr::OutputFailure => "output connection failure",
            MMMErr::PortInfoFailure => "port information failure",
            MMMErr::ArgError => "argument error",
            MMMErr::ParseError => "parse error",
        }
    }
}

/// The character sequences of a list of words.
pub open spec fn words(options: Seq<&str>) -> Seq<Seq<char>> {
    options.map_values(|w: &str| w@)
}

/// The character sequences of a list of owned strings.
pub open spec fn texts(strings: Seq<String>) -> Seq<Seq<char>> {
    strings.map_values(|s: String| s@)
}

/// Whether two strings hold the same characters.
pub fn str_eq(a: &str, b: &str) -> (res: bool)
    ensures
        res == (a@ == b@),
{
    let n = a.unicode_len();
    if n != b.unicode_len() {
        return false;
    }
    let mut i: usize = 0;
    while i < n
        invariant
            n == a@.len(),
            n == b@.len(),
            i <= n,
            forall|j: int| 0 <= j < i ==> a@[j] == b@[j],
        decreases n - i,
    {
        if a.get_char(i) != b.get_char(i) {
            return false;
        }
        i += 1;
    }
    assert(a@ =~= b@);
    true
}

/// Whether `word` starts with `prefix`.
pub fn str_starts_with(word: &str, prefix: &str) -> (res: bool)
    ensures
        res == prefix@.is_prefix_of(word@),
{
    let n = prefix.unicode_len();
    if n > word.unicode_len() {
        return false;
    }
    let mut i: usize = 0;
    while i < n
        invariant
            n == prefix@.len(),
            n <= word@.len(),
            i <= n,
            forall|j: int| 0 <= j < i ==> prefix@[j] == word@[j],
        decreases n - i,
    {
        if prefix.get_char(i) != word.get_char(i) {
            assert(prefix@[i as int] != word@.subrange(0, n as int)[i as int]);
            return false;
        }
        i += 1;
    }
    assert(prefix@ =~= word@.subrange(0, n as int));
    true
}

/// `i` is the first option that equals the keyword.
pub open spec fn is_first_exact(kwd: Seq<char>, options: Seq<Seq<char>>, i: int) -> bool {
    &&& 0 <= i < options.len()
    &&& options[i] == kwd
    &&& forall|j: int| 0 <= j < i ==> options[j] != kwd
}

/// `i` is the one and only option that starts with the keyword.
pub open spec fn is_only_prefix(kwd: Seq<char>, options: Seq<Seq<char>>, i: int) -> bool {
    &&& 0 <= i < options.len()
    &&& kwd.is_prefix_of(options[i])
    &&& forall|j: int| 0 <= j < options.len() && j != i ==> !kwd.is_prefix_of(#[trigger] options[j])
}

/// What an abbreviation resolves to: the first option that equals it, or
/// else the only option that starts with it, or else nothing.
pub open spec fn keyword_match(kwd: Seq<char>, options: Seq<Seq<char>>) -> Option<int> {
    if exists|i: int| is_first_exact(kwd, options, i) {
        Some(choose|i: int| is_first_exact(kwd, options, i))
    } else if exists|i: int| is_only_prefix(kwd, options, i) {
        Some(choose|i: int| is_only_prefix(kwd, options, i))
    } else {
        None
    }
}

/// An option that equals the keyword is what the keyword resolves to, the
/// first such option if there are several, whatever else starts with it.
pub proof fn lemma_exact_match_wins(kwd: Seq<char>, options: Seq<Seq<char>>, i: int)
    requires
        is_first_exact(kwd, options, i),
    ensures
        keyword_match(kwd, options) == Some(i),
{
    let k = choose|k: int| is_first_exact(kwd, options, k);
    assert(k == i) by {
        if k < i {
            assert(options[k] != kwd);
        } else if i < k {
            assert(options[i] != kwd);
        }
    }
}

/// Without an exact match, a keyword that only one option starts with
/// resolves to that option.
pub proof fn lemma_unique_prefix_resolves(kwd: Seq<char>, options: Seq<Seq<char>>, i: int)
    requires
        !options.contains(kwd),
        is_only_prefix(kwd, options, i),
    ensures
        keyword_match(kwd, options) == Some(i),
{
    assert forall|k: int| !is_first_exact(kwd, options, k) by {
        if is_first_exact(kwd, options, k) {
            assert(options.contains(kwd));
        }
    }
    let k = choose|k: int| is_only_prefix(kwd, options, k);
    if k != i {
        assert(!kwd.is_prefix_of(options[k]));
    }
}

/// Without an exact match, a keyword that two options start with resolves
/// to nothing, and so does one that no option starts with.
pub proof fn lemma_ambiguous_or_absent_is_none(kwd: Seq<char>, options: Seq<Seq<char>>)
    requires
        !options.contains(kwd),
        (exists|i: int, j: int|
            0 <= i < j < options.len() && kwd.is_prefix_of(options[i]) && kwd.is_prefix_of(
                options[j],
            )) || (forall|i: int| 0 <= i < options.len() ==> !kwd.is_prefix_of(options[i])),
    ensures
        keyword_match(kwd, options) is None,
{
    assert forall|k: int| !is_first_exact(kwd, options, k) by {
        if is_first_exact(kwd, options, k) {
            assert(options.contains(kwd));
        }
    }
    assert forall|k: int| !is_only_prefix(kwd, options, k) by {
        if is_only_prefix(kwd, options, k) {
            if exists|i: int, j: int|
                0 <= i < j < options.len() && kwd.is_prefix_of(options[i]) && kwd.is_prefix_of(
                    options[j],
                ) {
                let (i, j) = choose|i: int, j: int|
                    0 <= i < j < options.len() && kwd.is_prefix_of(options[i])
                        && kwd.is_prefix_of(options[j]);
                if i != k {
                    assert(!kwd.is_prefix_of(options[i]));
                } else {
                    assert(!kwd.is_prefix_of(options[j]));
                }
            }
        }
    }
}

/// Resolves an abbreviated keyword against a list of options.
///
/// An option that equals `kwd` wins at once, the first one if there are
/// several. Failing that, `kwd` resolves to the option that starts with it
/// when there is exactly one; two or more such options are ambiguous and
/// give `None`, as does a keyword that matches nothing.
pub fn shortened_keyword_match(kwd: &str, options: &[&str]) -> (res: Option<usize>)
    ensures
        match res {
            Some(i) => keyword_match(kwd@, words(options@)) == Some(i as int),
            None => keyword_match(kwd@, words(options@)) is None,
        },
        res matches Some(i) ==> i < options@.len() && kwd@.is_prefix_of(options@[i as int]@),
{
    let ghost opts = words(options@);
    let mut ret: usize = 0;
    let mut found_match = false;
    let mut ambiguous = false;
    let mut idx: usize = 0;
    while idx < options.len()
        invariant
            opts == words(options@),
            idx <= options@.len(),
            forall|j: int| 0 <= j < idx ==> opts[j] != kwd@,
            !found_match ==> !ambiguous && forall|j: int|
                0 <= j < idx ==> !kwd@.is_prefix_of(#[trigger] opts[j]),
            found_match ==> ret < idx && kwd@.is_prefix_of(opts[ret as int]),
            found_match && !ambiguous ==> forall|j: int|
                0 <= j < idx && j != ret ==> !kwd@.is_prefix_of(#[trigger] opts[j]),
            ambiguous ==> exists|j: int|
                0 <= j < idx && j != ret && kwd@.is_prefix_of(#[trigger] opts[j]),
        decreases options@.len() - idx,
    {
        let word = options[idx];
        assert(opts[idx as int] == word@);
        if str_starts_with(word, kwd) {
            if str_eq(word, kwd) {
                proof {
                    lemma_exact_match_wins(kwd@, opts, idx as int);
                }
                return Some(idx);
            } else if found_match {
                ambiguous = true;
            } else {
                found_match = true;
                ret = idx;
            }
        }
        idx += 1;
    }
    proof {
        assert(!opts.contains(kwd@));
        if found_match && !ambiguous {
            lemma_unique_prefix_resolves(kwd@, opts, ret as int);
        } else if ambiguous {
            let j = choose|j: int|
                0 <= j < idx && j != ret && kwd@.is_prefix_of(#[trigger] opts[j]);
            if j < ret {
                assert(0 <= j < ret < opts.len() && kwd@.is_prefix_of(opts[j])
                    && kwd@.is_prefix_of(opts[ret as int]));
            } else {
                assert(0 <= ret < j < opts.len() && kwd@.is_prefix_of(opts[ret as int])
                    && kwd@.is_prefix_of(opts[j]));
            }
            lemma_ambiguous_or_absent_is_none(kwd@, opts);
        } else {
            lemma_ambiguous_or_absent_is_none(kwd@, opts);
        }
    }
    if found_match && !ambiguous {
        Some(ret)
    } else {
        None
    }
}

/// Appends `val` to `vec` unless an equal element is already there.
pub fn push_if_not_present<T: PartialEq>(val: T, vec: &mut Vec<T>)
    ensures
        final(vec)@ == old(vec)@ || final(vec)@ == old(vec)@.push(val),
        T::obeys_eq_spec() ==> (final(vec)@ == old(vec)@ <==> exists|i: int|
            0 <= i < old(vec)@.len() && (#[trigger] old(vec)@[i]).eq_spec(&val)),
{
    let mut i: usize = 0;
    while i < vec.len()
        invariant
            vec@ == old(vec)@,
            i <= vec@.len(),
            T::obeys_eq_spec() ==> forall|j: int|
                0 <= j < i ==> !(#[trigger] vec@[j]).eq_spec(&val),
        decreases vec@.len() - i,
    {
        if vec[i] == val {
            return ;
        }
        i += 1;
    }
    vec.push(val);
    assert(final(vec)@.len() != old(vec)@.len());
}

} // verus!
