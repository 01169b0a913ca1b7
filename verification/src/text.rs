//! Text rules of the pipeline: the key-normalization of configuration text
//! and the joining of folder and file names into a path.

use vstd::prelude::*;
use vstd::string::StringExecFns;

verus! {

/// The byte `-`: the separator spelling that configuration keys may use.
pub const HYPHEN: u8 = 45;

/// The byte `_`: the separator spelling that the configuration parser expects.
pub const UNDERSCORE: u8 = 95;

/// The byte `\n`: ends a line of configuration text.
pub const NEWLINE: u8 = 10;

/// The byte `=`: on a line of configuration text, what follows it is a value.
pub const EQUALS: u8 = 61;

/// The byte `#`: on a line of configuration text, what follows it is comment.
pub const HASH: u8 = 35;

/// Whether position `i` of the text is key position: only key text (a bare
/// key, or a `[...]` section header) can stand there, because neither an `=`
/// nor a `#` has occurred yet on its line. Values and comments are not key
/// position, and a separator there keeps its spelling.
pub open spec fn key_pos(s: Seq<u8>, i: int) -> bool
    decreases i,
{
    if i <= 0 {
        true
    } else if s[i - 1] == NEWLINE {
        true
    } else if s[i - 1] == EQUALS || s[i - 1] == HASH {
        false
    } else {
        key_pos(s, i - 1)
    }
}

/// Configuration text after normalization: every hyphen in key position
/// becomes an underscore; every other byte stays.
pub open spec fn normalize_spec(s: Seq<u8>) -> Seq<u8> {
    Seq::new(
        s.len(),
        |i: int|
            if s[i] == HYPHEN && key_pos(s, i) {
                UNDERSCORE
            } else {
                s[i]
            },
    )
}

/// Whether a byte spells a key separator, in either accepted style.
pub open spec fn is_separator(b: u8) -> bool {
    b == HYPHEN || b == UNDERSCORE
}

/// Whether two configuration texts agree everywhere except, possibly, in the
/// spelling of key separators in key position.
pub open spec fn separators_agree(s1: Seq<u8>, s2: Seq<u8>) -> bool {
    &&& s1.len() == s2.len()
    &&& forall|i: int|
        0 <= i < s1.len() ==> (s1[i] == s2[i] || (is_separator(s1[i]) && is_separator(s2[i])
            && key_pos(s1, i)))
}

/// Replaces every hyphen in key position by an underscore, so that both
/// spellings of a key separator reach the parser in one form while values
/// and comments keep theirs.
pub fn normalize_config_bytes(text: &Vec<u8>) -> (r: Vec<u8>)
    ensures
        r@ == normalize_spec(text@),
{
    let mut r: Vec<u8> = Vec::new();
    let mut keyish: bool = true;
    let mut i: usize = 0;
    while i < text.len()
        invariant
            i <= text.len(),
            keyish == key_pos(text@, i as int),
            r@ == normalize_spec(text@).take(i as int),
        decreases text.len() - i,
    {
        let b = text[i];
        if b == HYPHEN && keyish {
            r.push(UNDERSCORE);
        } else {
            r.push(b);
        }
        keyish = if b == NEWLINE {
            true
        } else if b == EQUALS || b == HASH {
            false
        } else {
            keyish
        };
        proof {
            assert(normalize_spec(text@).take(i + 1) =~= normalize_spec(text@).take(
                i as int,
            ).push(normalize_spec(text@)[i as int]));
        }
        i = i + 1;
    }
    proof {
        assert(normalize_spec(text@).take(text@.len() as int) =~= normalize_spec(text@));
    }
    r
}

/// Two texts that agree up to key-separator spelling classify every position
/// alike: the line structure and the `=`/`#` stops are the same in both.
pub proof fn lemma_key_pos_agrees(s1: Seq<u8>, s2: Seq<u8>, i: int)
    requires
        separators_agree(s1, s2),
        0 <= i <= s1.len(),
    ensures
        key_pos(s1, i) == key_pos(s2, i),
    decreases i,
{
    if i > 0 {
        lemma_key_pos_agrees(s1, s2, i - 1);
        assert(s1[i - 1] == s2[i - 1] || (is_separator(s1[i - 1]) && is_separator(s2[i - 1])));
    }
}

/// Key-normalization invariant: two configuration texts that differ only in
/// the spelling of their key separators normalize to the same text, and so
/// reach the configuration parser as identical input.
pub proof fn lemma_normalization_identifies_separators(s1: Seq<u8>, s2: Seq<u8>)
    requires
        separators_agree(s1, s2),
    ensures
        normalize_spec(s1) == normalize_spec(s2),
{
    assert forall|i: int| 0 <= i < s1.len() implies normalize_spec(s1)[i] == normalize_spec(
        s2,
    )[i] by {
        lemma_key_pos_agrees(s1, s2, i);
        assert(s1[i] == s2[i] || (is_separator(s1[i]) && is_separator(s2[i]) && key_pos(s1, i)));
    }
    assert(normalize_spec(s1) =~= normalize_spec(s2));
}

/// The resolved path of a file inside a folder: folder, one `/`, file name.
pub open spec fn join_spec(folder: Seq<char>, file: Seq<char>) -> Seq<char> {
    folder + "/"@ + file
}

/// Concatenates a folder and a file name with a path separator. No lookup or
/// matching is done here: the path is exactly the two names around one `/`.
pub fn join_path(folder: &String, file: &String) -> (r: String)
    ensures
        r@ == join_spec(folder@, file@),
{
    folder.clone().concat("/").concat(file.as_str())
}

} // verus!
