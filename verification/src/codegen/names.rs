//! Names in generated code.

use vstd::prelude::*;

verus! {

/// `String::push`. Trusted: the character is added at the end.
pub assume_specification[ String::push ](text: &mut String, c: char)
    ensures
        final(text)@ == old(text)@.push(c),
;

/// The upper-case form of an ASCII letter; any other character as it is.
pub open spec fn ascii_upper(c: char) -> char {
    if 'a' <= c <= 'z' {
        (c as u32 - 32) as char
    } else {
        c
    }
}

/// Whether a word of a snake-case name starts at position `i`.
pub open spec fn starts_word(name: Seq<char>, i: int) -> bool {
    i == 0 || name[i - 1] == '_'
}

/// A snake-case name in Pascal case: without underscores, each word capitalised.
pub open spec fn pascal_case(name: Seq<char>) -> Seq<char>
    decreases name.len(),
{
    if name.len() == 0 {
        Seq::empty()
    } else {
        let before = pascal_case(name.drop_last());
        if name.last() == '_' {
            before
        } else if starts_word(name, name.len() - 1) {
            before.push(ascii_upper(name.last()))
        } else {
            before.push(name.last())
        }
    }
}

/// The upper-case form of an ASCII letter; any other character as it is.
fn to_ascii_upper(c: char) -> (upper: char)
    ensures
        upper == ascii_upper(c),
{
    if 'a' <= c && c <= 'z' {
        ((c as u8) - 32) as char
    } else {
        c
    }
}

/// Turns a snake-case name into Pascal case.
pub fn to_pascal_case(s: &str) -> (result: String)
    ensures
        result@ == pascal_case(s@),
{
    let mut result = String::new();
    let mut capitalize_next: bool = true;
    for c in chars: s.chars()
        invariant
            chars.seq() == s@,
            result@ == pascal_case(s@.take(chars.index())),
            capitalize_next == starts_word(s@, chars.index()),
    {
        let ghost now = chars.index();
        assert(s@.take(now + 1).drop_last() =~= s@.take(now));
        assert(c == s@[now]);
        assert(starts_word(s@.take(now + 1), now) == starts_word(s@, now));
        if c == '_' {
            capitalize_next = true;
        } else if capitalize_next {
            result.push(to_ascii_upper(c));
            capitalize_next = false;
        } else {
            result.push(c);
        }
    }
    assert(s@.take(s@.len() as int) =~= s@);
    result
}

/// The characters of `name` other than underscores.
pub open spec fn letters(name: Seq<char>) -> Seq<char> {
    name.filter(|c: char| c != '_')
}

/// Pascal case drops the underscores and nothing else: each other character stays in its place,
/// at most its case changes.
pub proof fn law_pascal_case_keeps_letters(name: Seq<char>)
    ensures
        pascal_case(name).len() == letters(name).len(),
        forall|i: int|
            #![trigger pascal_case(name)[i]]
            0 <= i < letters(name).len() ==> pascal_case(name)[i] == letters(name)[i]
                || pascal_case(name)[i] == ascii_upper(letters(name)[i]),
        !pascal_case(name).contains('_'),
    decreases name.len(),
{
    reveal(Seq::filter);
    if name.len() > 0 {
        law_pascal_case_keeps_letters(name.drop_last());
    }
}

/// Whether `upper` is `c` with its case raised: an ASCII letter becomes the capital of the same
/// letter, and any other character stays as it is.
pub open spec fn raised_case(c: char, upper: char) -> bool {
    if 'a' <= c <= 'z' {
        'A' <= upper <= 'Z' && upper as int + 32 == c as int
    } else {
        upper == c
    }
}

/// Whether `pascal` is `name` in Pascal case: each character other than an underscore is found
/// there, behind as many as stand before it in `name`; its case is raised where it is the first,
/// or follows an underscore, and it is unchanged elsewhere; and nothing else is there.
pub open spec fn in_pascal_case(name: Seq<char>, pascal: Seq<char>) -> bool {
    &&& pascal.len() == letters(name).len()
    &&& forall|i: int|
        0 <= i < name.len() && #[trigger] name[i] != '_' ==> {
            let place = letters(name.take(i)).len() as int;
            &&& 0 <= place < pascal.len()
            &&& i == 0 || name[i - 1] == '_' ==> raised_case(name[i], pascal[place])
            &&& i > 0 && name[i - 1] != '_' ==> pascal[place] == name[i]
        }
}

pub(crate) proof fn lemma_in_pascal_case(name: Seq<char>)
    ensures
        in_pascal_case(name, pascal_case(name)),
    decreases name.len(),
{
    reveal(Seq::filter);
    if name.len() > 0 {
        let front = name.drop_last();
        lemma_in_pascal_case(front);
        assert forall|i: int| 0 <= i < name.len() && #[trigger] name[i] != '_' implies {
            let place = letters(name.take(i)).len() as int;
            &&& 0 <= place < pascal_case(name).len()
            &&& i == 0 || name[i - 1] == '_' ==> raised_case(name[i], pascal_case(name)[place])
            &&& i > 0 && name[i - 1] != '_' ==> pascal_case(name)[place] == name[i]
        } by {
            if i < front.len() {
                assert(front[i] == name[i]);
                assert(front.take(i) =~= name.take(i));
            } else {
                assert(name.take(i) =~= front);
            }
        }
    }
}

/// A name in Pascal case holds the characters of the name but its underscores, in their order,
/// with the case of the first of each word raised.
pub proof fn law_pascal_case_capitalises_words(s: &str, result: String)
    requires
        call_ensures(to_pascal_case, (s,), result),
    ensures
        in_pascal_case(s@, result@),
{
    lemma_in_pascal_case(s@);
}

} // verus!
