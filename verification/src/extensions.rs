//! Vulkan extension names: reading them off the runtime's list, printing them,
//! and adding them to those already enabled.

use vstd::prelude::*;
use vstd::string::*;

use crate::text::join_texts;

verus! {

use vstd::utf8::encode_utf8;

use crate::text::{each_after, joined, joining_separates_neighbours, texts};

/// Whether a character has the Unicode property `White_Space`.
pub open spec fn white_space(c: char) -> bool {
    let n = c as int;
    ||| 0x09 <= n <= 0x0d
    ||| n == 0x20
    ||| n == 0x85
    ||| n == 0xa0
    ||| n == 0x1680
    ||| 0x2000 <= n <= 0x200a
    ||| 0x2028 <= n <= 0x2029
    ||| n == 0x202f
    ||| n == 0x205f
    ||| n == 0x3000
}

/// Whether a character has the Unicode property `White_Space`.
pub fn is_white_space(c: char) -> (r: bool)
    ensures
        r == white_space(c),
{
    let n: u32 = c as u32;
    (0x09 <= n && n <= 0x0d) || n == 0x20 || n == 0x85 || n == 0xa0 || n == 0x1680 || (0x2000 <= n
        && n <= 0x200a) || (0x2028 <= n && n <= 0x2029) || n == 0x202f || n == 0x205f || n == 0x3000
}

/// How many characters at the front are not white space.
pub open spec fn word_len(s: Seq<char>) -> nat
    decreases s.len(),
{
    if s.len() == 0 || white_space(s[0]) {
        0
    } else {
        1 + word_len(s.drop_first())
    }
}

/// Whether a word can be the name of an extension: names end at a NUL, so none
/// stands inside one.
pub open spec fn can_be_name(word: Seq<char>) -> bool {
    !word.contains('\0')
}

/// The words of a list, that is its longest stretches without white space, in
/// order and without those that cannot be names.
pub open spec fn extension_names(s: Seq<char>) -> Seq<Seq<char>>
    decreases s.len(),
{
    if s.len() == 0 {
        Seq::empty()
    } else if white_space(s[0]) {
        extension_names(s.drop_first())
    } else {
        proof {
            word_len_bounds(s);
        }
        let word = s.take(word_len(s) as int);
        let rest = extension_names(s.skip(word_len(s) as int));
        if can_be_name(word) {
            seq![word] + rest
        } else {
            rest
        }
    }
}

/// `word_len` counts the characters up to the first white space.
pub proof fn word_len_bounds(s: Seq<char>)
    ensures
        word_len(s) <= s.len(),
        forall|i: int| 0 <= i < word_len(s) ==> !white_space(#[trigger] s[i]),
        word_len(s) < s.len() ==> white_space(s[word_len(s) as int]),
    decreases s.len(),
{
    if s.len() > 0 && !white_space(s[0]) {
        let rest = s.drop_first();
        word_len_bounds(rest);
        assert forall|i: int| 0 <= i < word_len(s) implies !white_space(#[trigger] s[i]) by {
            if i > 0 {
                assert(!white_space(rest[i - 1]));
            }
        }
    }
}

/// A stretch of `n` characters that are not white space, with white space or
/// nothing behind it, is what `word_len` counts.
proof fn word_len_is(s: Seq<char>, n: nat)
    requires
        n <= s.len(),
        forall|i: int| 0 <= i < n ==> !white_space(#[trigger] s[i]),
        n < s.len() ==> white_space(s[n as int]),
    ensures
        word_len(s) == n,
{
    word_len_bounds(s);
    if word_len(s) < n {
        assert(!white_space(s[word_len(s) as int]));
    } else if n < word_len(s) {
        assert(!white_space(s[n as int]));
    }
}

fn has_nul(chars: &Vec<char>, from: usize, to: usize) -> (r: bool)
    requires
        from <= to <= chars.len(),
    ensures
        r == chars@.subrange(from as int, to as int).contains('\0'),
{
    let ghost word = chars@.subrange(from as int, to as int);
    let mut i: usize = from;
    while i < to
        invariant
            from <= i <= to <= chars.len(),
            word == chars@.subrange(from as int, to as int),
            forall|k: int| 0 <= k < i - from ==> word[k] != '\0',
        decreases to - i,
    {
        if chars[i] == '\0' {
            assert(word[i - from] == '\0');
            return true;
        }
        i += 1;
    }
    false
}

/// Splits OpenXR's space-separated list of extensions into names.
pub fn parse_extension_list(extensions: &str) -> (names: Vec<String>)
    ensures
        texts(names@) == extension_names(extensions@),
{
    let ghost s = extensions@;
    let mut chars: Vec<char> = Vec::new();
    for c in it: extensions.chars()
        invariant
            chars@ == s.take(it.index()),
            it.seq() == s,
    {
        chars.push(c);
        assert(s.take(it.index() + 1) =~= s.take(it.index()).push(s[it.index()]));
    }
    assert(chars@ =~= s);
    let mut names: Vec<String> = Vec::new();
    let mut i: usize = 0;
    assert(s.skip(0) =~= s);
    while i < chars.len()
        invariant
            i <= chars.len(),
            chars@ == s,
            s == extensions@,
            texts(names@) + extension_names(s.skip(i as int)) == extension_names(s),
        decreases chars.len() - i,
    {
        let ghost rest = s.skip(i as int);
        if is_white_space(chars[i]) {
            assert(rest.drop_first() =~= s.skip(i + 1));
            i += 1;
        } else {
            let start: usize = i;
            while i < chars.len() && !is_white_space(chars[i])
                invariant
                    start <= i <= chars.len(),
                    chars@ == s,
                    forall|k: int| start <= k < i ==> !white_space(#[trigger] s[k]),
                decreases chars.len() - i,
            {
                i += 1;
            }
            proof {
                word_len_is(rest, (i - start) as nat);
                assert(rest.take(i - start) =~= s.subrange(start as int, i as int));
                assert(rest.skip(i - start) =~= s.skip(i as int));
            }
            let ghost before = texts(names@);
            if !has_nul(&chars, start, i) {
                names.push(extensions.substring_char(start, i).to_owned());
                assert(texts(names@) =~= before.push(s.subrange(start as int, i as int)));
            }
            assert(texts(names@) + extension_names(s.skip(i as int)) =~= before
                + extension_names(rest));
        }
    }
    assert(s.skip(i as int) =~= Seq::empty());
    assert(texts(names@) + Seq::<Seq<char>>::empty() =~= texts(names@));
    names
}

/// Prints a list of extensions.
pub fn format_extensions(extensions: &Vec<String>) -> (text: String)
    ensures
        extensions@.len() == 0 ==> text@ == "(none)"@,
        extensions@.len() > 0 ==> text@ == joined(texts(extensions@), ", "@),
{
    if extensions.len() == 0 {
        return "(none)".to_owned();
    }
    join_texts(extensions, ", ")
}

/// Whether a word is the name of an extension: it is not empty, and neither
/// white space nor a NUL stands in it.
pub open spec fn is_name(word: Seq<char>) -> bool {
    &&& word.len() > 0
    &&& can_be_name(word)
    &&& forall|i: int| 0 <= i < word.len() ==> !white_space(#[trigger] word[i])
}

/// Whatever is parsed, only names come out of it.
pub proof fn parsing_gives_names(s: Seq<char>)
    ensures
        forall|i: int| 0 <= i < extension_names(s).len() ==> is_name(#[trigger] extension_names(s)[i]),
    decreases s.len(),
{
    if s.len() > 0 {
        if white_space(s[0]) {
            parsing_gives_names(s.drop_first());
            assert(extension_names(s) == extension_names(s.drop_first()));
        } else {
            word_len_bounds(s);
            let n = word_len(s) as int;
            let word = s.take(n);
            let rest = extension_names(s.skip(n));
            parsing_gives_names(s.skip(n));
            assert forall|i: int| 0 <= i < extension_names(s).len() implies is_name(
                #[trigger] extension_names(s)[i],
            ) by {
                if can_be_name(word) {
                    if i == 0 {
                        assert(extension_names(s)[i] == word);
                        assert forall|k: int| 0 <= k < word.len() implies !white_space(
                            #[trigger] word[k],
                        ) by {
                            assert(!white_space(s[k]));
                        }
                    } else {
                        assert(extension_names(s)[i] == rest[i - 1]);
                    }
                }
            }
        }
    }
}

/// A list of names joined by spaces parses into these names.
pub proof fn space_separated_names_parse_back(names: Seq<Seq<char>>)
    requires
        forall|i: int| 0 <= i < names.len() ==> is_name(#[trigger] names[i]),
    ensures
        extension_names(joined(names, " "@)) == names,
    decreases names.len(),
{
    reveal_strlit(" ");
    if names.len() > 0 {
        let word = names[0];
        let rest = names.drop_first();
        let tail = each_after(rest, " "@);
        let s = joined(names, " "@);
        assert(is_name(word));
        assert(forall|i: int| 0 <= i < rest.len() ==> rest[i] == names[i + 1]);
        space_separated_names_parse_back(rest);
        assert(s =~= word + tail);
        assert forall|i: int| 0 <= i < word.len() implies !white_space(#[trigger] s[i]) by {
            assert(!white_space(word[i]));
        }
        if rest.len() > 0 {
            assert(tail =~= seq![' '] + joined(rest, " "@));
            assert(s[word.len() as int] == ' ');
            assert(tail.drop_first() =~= joined(rest, " "@));
        }
        word_len_is(s, word.len());
        assert(s.take(word.len() as int) =~= word);
        assert(s.skip(word.len() as int) =~= tail);
        assert(extension_names(tail) == rest);
        assert(seq![word] + rest =~= names);
    }
}

/// White space between two lists separates them: the names of both, one after the
/// other, are the names of the whole.
pub proof fn parsing_distributes_over_white_space(a: Seq<char>, space: char, b: Seq<char>)
    requires
        white_space(space),
    ensures
        extension_names(a + seq![space] + b) == extension_names(a) + extension_names(b),
    decreases a.len(),
{
    let s = a + seq![space] + b;
    if a.len() == 0 {
        assert(s.drop_first() =~= b);
        assert(extension_names(a) + extension_names(b) =~= extension_names(b));
    } else if white_space(a[0]) {
        parsing_distributes_over_white_space(a.drop_first(), space, b);
        assert(s.drop_first() =~= a.drop_first() + seq![space] + b);
    } else {
        word_len_bounds(a);
        let n = word_len(a);
        let rest = a.skip(n as int);
        assert forall|i: int| 0 <= i < n implies !white_space(#[trigger] s[i]) by {
            assert(!white_space(a[i]));
        }
        word_len_is(s, n);
        parsing_distributes_over_white_space(rest, space, b);
        assert(s.take(n as int) =~= a.take(n as int));
        assert(s.skip(n as int) =~= rest + seq![space] + b);
        assert(extension_names(s) =~= extension_names(a) + extension_names(b));
    }
}

/// The bytes of each of a list of byte strings.
pub open spec fn byte_strings(list: Seq<Vec<u8>>) -> Seq<Seq<u8>> {
    list.map_values(|v: Vec<u8>| v@)
}

/// The UTF-8 bytes of each of a list of names.
pub open spec fn encoded(names: Seq<Seq<char>>) -> Seq<Seq<u8>> {
    names.map_values(|name: Seq<char>| encode_utf8(name))
}

/// Turns names into the bytes that Vulkan knows them by.
pub fn name_bytes(names: &Vec<String>) -> (bytes: Vec<Vec<u8>>)
    ensures
        byte_strings(bytes@) == encoded(texts(names@)),
{
    let mut bytes: Vec<Vec<u8>> = Vec::new();
    let mut i: usize = 0;
    while i < names.len()
        invariant
            i <= names.len(),
            bytes.len() == i,
            forall|k: int| 0 <= k < i ==> (#[trigger] bytes@[k])@ == encode_utf8(names@[k]@),
        decreases names.len() - i,
    {
        bytes.push(names[i].as_str().as_bytes_vec());
        i += 1;
    }
    assert(byte_strings(bytes@) =~= encoded(texts(names@)));
    bytes
}

/// Whether the required extension at `i` has to be added: it is not enabled, and
/// no earlier one of the required is the same.
pub open spec fn is_missing(enabled: Seq<Seq<u8>>, required: Seq<Seq<u8>>, i: int) -> bool {
    !enabled.contains(required[i]) && !required.take(i).contains(required[i])
}

/// Where, among the first `n` required extensions, those stand that have to be
/// added, in order.
pub open spec fn missing_up_to(enabled: Seq<Seq<u8>>, required: Seq<Seq<u8>>, n: nat) -> Seq<int>
    decreases n,
{
    if n == 0 {
        Seq::empty()
    } else {
        let before = missing_up_to(enabled, required, (n - 1) as nat);
        if is_missing(enabled, required, n - 1) {
            before.push(n - 1)
        } else {
            before
        }
    }
}

/// The enabled extensions with the missing ones behind them.
pub open spec fn extended(enabled: Seq<Seq<u8>>, required: Seq<Seq<u8>>) -> Seq<Seq<u8>> {
    enabled + missing_up_to(enabled, required, required.len()).map_values(|i: int| required[i])
}

fn same_bytes(a: &Vec<u8>, b: &Vec<u8>) -> (r: bool)
    ensures
        r == (a@ == b@),
{
    if a.len() != b.len() {
        return false;
    }
    let mut i: usize = 0;
    while i < a.len()
        invariant
            i <= a.len(),
            a.len() == b.len(),
            forall|k: int| 0 <= k < i ==> a@[k] == b@[k],
        decreases a.len() - i,
    {
        if a[i] != b[i] {
            return false;
        }
        i += 1;
    }
    assert(a@ =~= b@);
    true
}

fn contains_name(names: &Vec<Vec<u8>>, count: usize, name: &Vec<u8>) -> (r: bool)
    requires
        count <= names.len(),
    ensures
        r == byte_strings(names@).take(count as int).contains(name@),
{
    let ghost strings = byte_strings(names@).take(count as int);
    let mut i: usize = 0;
    while i < count
        invariant
            i <= count <= names.len(),
            strings == byte_strings(names@).take(count as int),
            forall|k: int| 0 <= k < i ==> strings[k] != name@,
        decreases count - i,
    {
        if same_bytes(&names[i], name) {
            assert(strings[i as int] == name@);
            return true;
        }
        assert(strings[i as int] == names@[i as int]@);
        i += 1;
    }
    false
}

/// Finds which of the required extensions have to be added to those enabled. The
/// numbers are indices into `required`; each extension is added once.
pub fn missing_extensions(enabled: &Vec<Vec<u8>>, required: &Vec<Vec<u8>>) -> (missing: Vec<usize>)
    ensures
        missing@.map_values(|i: usize| i as int) == missing_up_to(
            byte_strings(enabled@),
            byte_strings(required@),
            required@.len(),
        ),
{
    let ghost e = byte_strings(enabled@);
    let ghost r = byte_strings(required@);
    let mut missing: Vec<usize> = Vec::new();
    let mut i: usize = 0;
    assert(missing@.map_values(|i: usize| i as int) =~= Seq::empty());
    while i < required.len()
        invariant
            i <= required.len(),
            e == byte_strings(enabled@),
            r == byte_strings(required@),
            missing@.map_values(|i: usize| i as int) == missing_up_to(e, r, i as nat),
        decreases required.len() - i,
    {
        let ghost before = missing@.map_values(|i: usize| i as int);
        assert(e.take(enabled@.len() as int) =~= e);
        if !contains_name(enabled, enabled.len(), &required[i]) && !contains_name(
            required,
            i,
            &required[i],
        ) {
            missing.push(i);
            assert(missing@.map_values(|i: usize| i as int) =~= before.push(i as int));
        }
        i += 1;
    }
    missing
}

proof fn missing_indices(enabled: Seq<Seq<u8>>, required: Seq<Seq<u8>>, n: nat)
    requires
        n <= required.len(),
    ensures
        forall|k: int|
            0 <= k < missing_up_to(enabled, required, n).len() ==> {
                let i = #[trigger] missing_up_to(enabled, required, n)[k];
                0 <= i < n && is_missing(enabled, required, i)
            },
        forall|j: int, k: int|
            0 <= j < k < missing_up_to(enabled, required, n).len() ==> missing_up_to(
                enabled,
                required,
                n,
            )[j] < missing_up_to(enabled, required, n)[k],
        forall|i: int|
            0 <= i < n && #[trigger] is_missing(enabled, required, i) ==> missing_up_to(
                enabled,
                required,
                n,
            ).contains(i),
    decreases n,
{
    if n > 0 {
        let m = (n - 1) as nat;
        missing_indices(enabled, required, m);
        let before = missing_up_to(enabled, required, m);
        let now = missing_up_to(enabled, required, n);
        assert forall|i: int| 0 <= i < n && #[trigger] is_missing(enabled, required, i) implies
            now.contains(i) by {
            if i < m {
                assert(before.contains(i));
                let k = choose|k: int| 0 <= k < before.len() && before[k] == i;
                assert(now[k] == i);
            } else {
                assert(now[now.len() - 1] == i);
            }
        }
    }
}

/// Every required extension, or one that is the same, stands at an index where
/// nothing before it is the same.
proof fn first_occurrence(required: Seq<Seq<u8>>, i: int) -> (first: int)
    requires
        0 <= i < required.len(),
    ensures
        0 <= first <= i,
        required[first] == required[i],
        !required.take(first).contains(required[first]),
    decreases i,
{
    if required.take(i).contains(required[i]) {
        let k = choose|k: int| 0 <= k < i && required.take(i)[k] == required[i];
        assert(required[k] == required[i]);
        first_occurrence(required, k)
    } else {
        i
    }
}

/// Adding the required extensions only ever appends: those enabled stay in
/// front, in their order. Afterwards every required extension is enabled. What
/// was appended is required, was not enabled before, and was appended once.
pub proof fn extending_appends_what_is_required(enabled: Seq<Seq<u8>>, required: Seq<Seq<u8>>)
    ensures
        ({
            let all = extended(enabled, required);
            &&& all.len() >= enabled.len()
            &&& all.take(enabled.len() as int) == enabled
            &&& forall|i: int| 0 <= i < required.len() ==> all.contains(#[trigger] required[i])
            &&& forall|k: int|
                enabled.len() <= k < all.len() ==> required.contains(#[trigger] all[k])
                    && !enabled.contains(all[k])
            &&& forall|j: int, k: int|
                enabled.len() <= j < k < all.len() ==> #[trigger] all[j] != #[trigger] all[k]
        }),
{
    let all = extended(enabled, required);
    let missing = missing_up_to(enabled, required, required.len());
    missing_indices(enabled, required, required.len());
    assert(all.take(enabled.len() as int) =~= enabled);
    assert forall|i: int| 0 <= i < required.len() implies all.contains(#[trigger] required[i]) by {
        if enabled.contains(required[i]) {
            let k = choose|k: int| 0 <= k < enabled.len() && enabled[k] == required[i];
            assert(all[k] == required[i]);
        } else {
            let first = first_occurrence(required, i);
            assert(is_missing(enabled, required, first));
            let k = choose|k: int| 0 <= k < missing.len() && missing[k] == first;
            assert(all[enabled.len() + k] == required[first]);
        }
    }
    assert forall|k: int| enabled.len() <= k < all.len() implies required.contains(
        #[trigger] all[k],
    ) && !enabled.contains(all[k]) by {
        let i = missing[k - enabled.len()];
        assert(all[k] == required[i]);
    }
    assert forall|j: int, k: int| enabled.len() <= j < k < all.len() implies #[trigger] all[j]
        != #[trigger] all[k] by {
        let a = missing[j - enabled.len()];
        let b = missing[k - enabled.len()];
        assert(a < b);
        assert(is_missing(enabled, required, b));
        assert(required.take(b)[a] == required[a]);
        if required[a] == required[b] {
            assert(required.take(b).contains(required[b]));
        }
    }
}

/// Once the required extensions are enabled, there is nothing left to add.
pub proof fn extending_twice_adds_nothing(enabled: Seq<Seq<u8>>, required: Seq<Seq<u8>>)
    ensures
        missing_up_to(extended(enabled, required), required, required.len()).len() == 0,
        extended(extended(enabled, required), required) == extended(enabled, required),
{
    let all = extended(enabled, required);
    let again = missing_up_to(all, required, required.len());
    extending_appends_what_is_required(enabled, required);
    missing_indices(all, required, required.len());
    if again.len() > 0 {
        assert(is_missing(all, required, again[0]));
        assert(all.contains(required[again[0]]));
    }
    assert(extended(all, required) =~= all);
}

/// Every extension that the runtime lists is enabled once the missing ones were
/// added, whatever was enabled before.
pub proof fn listed_extensions_end_up_enabled(enabled: Seq<Seq<u8>>, list: Seq<char>)
    ensures
        forall|i: int|
            0 <= i < extension_names(list).len() ==> extended(
                enabled,
                encoded(extension_names(list)),
            ).contains(encode_utf8(#[trigger] extension_names(list)[i])),
{
    let required = encoded(extension_names(list));
    extending_appends_what_is_required(enabled, required);
    assert forall|i: int| 0 <= i < extension_names(list).len() implies extended(
        enabled,
        required,
    ).contains(encode_utf8(#[trigger] extension_names(list)[i])) by {
        assert(required[i] == encode_utf8(extension_names(list)[i]));
    }
}

/// Words of whatever length, none of them empty and none holding white space or
/// a NUL, come back in their order when they are joined by spaces and parsed.
pub proof fn spaced_words_parse_back(words: Seq<Seq<char>>, list: &str, names: Vec<String>)
    requires
        forall|i: int| 0 <= i < words.len() ==> (#[trigger] words[i]).len() > 0,
        forall|i: int, k: int|
            0 <= i < words.len() && 0 <= k < words[i].len() ==> !white_space(
                #[trigger] words[i][k],
            ) && words[i][k] != '\0',
        list@ == joined(words, seq![' ']),
        call_ensures(parse_extension_list, (list,), names),
    ensures
        names@.len() == words.len(),
        forall|i: int| 0 <= i < words.len() ==> (#[trigger] names@[i])@ == words[i],
{
    reveal_strlit(" ");
    assert(seq![' '] =~= " "@);
    assert forall|i: int| 0 <= i < words.len() implies is_name(#[trigger] words[i]) by {
        let word = words[i];
        assert(forall|k: int| 0 <= k < word.len() ==> word[k] == words[i][k]);
        assert(!word.contains('\0')) by {
            if word.contains('\0') {
                let k = choose|k: int| 0 <= k < word.len() && word[k] == '\0';
                assert(words[i][k] != '\0');
            }
        }
        assert forall|k: int| 0 <= k < word.len() implies !white_space(#[trigger] word[k]) by {
            assert(!white_space(words[i][k]));
        }
    }
    space_separated_names_parse_back(words);
    assert(names@.len() == texts(names@).len());
    assert forall|i: int| 0 <= i < words.len() implies (#[trigger] names@[i])@ == words[i] by {
        assert(texts(names@)[i] == names@[i]@);
    }
}

/// A stretch without white space, of whatever length, is one name, unless it is
/// empty or a NUL stands in it: then it is none.
pub proof fn stretch_is_one_name_or_none(list: &str, names: Vec<String>)
    requires
        forall|i: int| 0 <= i < list@.len() ==> !white_space(#[trigger] list@[i]),
        call_ensures(parse_extension_list, (list,), names),
    ensures
        list@.len() == 0 || list@.contains('\0') ==> names@.len() == 0,
        list@.len() > 0 && !list@.contains('\0') ==> names@.len() == 1 && names@[0]@ == list@,
{
    let s = list@;
    assert(names@.len() == texts(names@).len());
    if s.len() > 0 {
        word_len_is(s, s.len());
        assert(s.take(s.len() as int) =~= s);
        assert(s.skip(s.len() as int) =~= Seq::empty());
        assert(extension_names(Seq::empty()) =~= Seq::empty());
        if !s.contains('\0') {
            assert(extension_names(s) =~= seq![s]);
            assert(texts(names@)[0] == names@[0]@);
        } else {
            assert(extension_names(s) =~= Seq::empty());
        }
    }
}

/// From call to call: two lists with white space between them parse into the
/// names of the one and then those of the other.
pub proof fn separated_lists_parse_apart(
    whole: &str,
    a: &str,
    space: char,
    b: &str,
    names: Vec<String>,
    names_a: Vec<String>,
    names_b: Vec<String>,
)
    requires
        white_space(space),
        whole@ == a@ + seq![space] + b@,
        call_ensures(parse_extension_list, (whole,), names),
        call_ensures(parse_extension_list, (a,), names_a),
        call_ensures(parse_extension_list, (b,), names_b),
    ensures
        names@.len() == names_a@.len() + names_b@.len(),
        forall|i: int| 0 <= i < names_a@.len() ==> (#[trigger] names@[i])@ == names_a@[i]@,
        forall|i: int|
            names_a@.len() <= i < names@.len() ==> (#[trigger] names@[i])@ == names_b@[i
                - names_a@.len()]@,
{
    parsing_distributes_over_white_space(a@, space, b@);
    assert(texts(names@) == texts(names_a@) + texts(names_b@));
    assert(names@.len() == texts(names@).len());
    assert forall|i: int| 0 <= i < names@.len() implies (#[trigger] names@[i])@ == (if i
        < names_a@.len() {
        names_a@[i]@
    } else {
        names_b@[i - names_a@.len()]@
    }) by {
        assert(texts(names@)[i] == names@[i]@);
    }
}

/// An empty list is printed as `(none)`, a list of one as its name, and a list
/// made of two others as both, with a comma and a space between them.
pub proof fn printed_lists_are_separated(
    whole: Vec<String>,
    a: Vec<String>,
    b: Vec<String>,
    text: String,
    text_a: String,
    text_b: String,
)
    requires
        call_ensures(format_extensions, (&whole,), text),
        call_ensures(format_extensions, (&a,), text_a),
        call_ensures(format_extensions, (&b,), text_b),
    ensures
        whole@.len() == 0 ==> text@ == seq!['(', 'n', 'o', 'n', 'e', ')'],
        whole@.len() == 1 ==> text@ == whole@[0]@,
        a@.len() > 0 && b@.len() > 0 && whole@ == a@ + b@ ==> text@ == text_a@ + seq![',', ' ']
            + text_b@,
{
    reveal_strlit("(none)");
    reveal_strlit(", ");
    let items = texts(whole@);
    joining_separates_neighbours(texts(a@), texts(b@), items[0], ", "@);
    assert(", "@ =~= seq![',', ' ']);
    if whole@.len() == 1 {
        assert(items =~= seq![items[0]]);
    }
    if whole@ == a@ + b@ {
        assert(items =~= texts(a@) + texts(b@));
    }
}

/// Each name is known by its own UTF-8 bytes, in order.
pub proof fn names_and_bytes_correspond(names: Vec<String>, bytes: Vec<Vec<u8>>)
    requires
        call_ensures(name_bytes, (&names,), bytes),
    ensures
        bytes@.len() == names@.len(),
        forall|i: int| 0 <= i < names@.len() ==> (#[trigger] bytes@[i])@ == encode_utf8(names@[i]@),
{
    assert(byte_strings(bytes@).len() == encoded(texts(names@)).len());
    assert forall|i: int| 0 <= i < names@.len() implies (#[trigger] bytes@[i])@ == encode_utf8(
        names@[i]@,
    ) by {
        assert(byte_strings(bytes@)[i] == bytes@[i]@);
    }
}

/// Of the required extensions exactly those are to be added that are neither
/// enabled nor listed before, and they are to be added in their order.
pub proof fn first_of_each_missing_extension_is_added(
    enabled: Vec<Vec<u8>>,
    required: Vec<Vec<u8>>,
    missing: Vec<usize>,
)
    requires
        call_ensures(missing_extensions, (&enabled, &required), missing),
    ensures
        forall|j: int, k: int|
            0 <= j < k < missing@.len() ==> #[trigger] missing@[j] < #[trigger] missing@[k],
        forall|k: int| 0 <= k < missing@.len() ==> #[trigger] missing@[k] < required@.len(),
        forall|i: usize|
            i < required@.len() ==> (#[trigger] missing@.contains(i) <==> {
                &&& forall|j: int|
                    0 <= j < enabled@.len() ==> (#[trigger] enabled@[j])@ != required@[i as int]@
                &&& forall|j: int|
                    0 <= j < i ==> (#[trigger] required@[j])@ != required@[i as int]@
            }),
{
    let e = byte_strings(enabled@);
    let r = byte_strings(required@);
    let indices = missing_up_to(e, r, r.len());
    let given = missing@.map_values(|i: usize| i as int);
    missing_indices(e, r, r.len());
    assert(given == indices);
    assert(forall|k: int| 0 <= k < missing@.len() ==> given[k] == #[trigger] missing@[k]);
    assert(forall|j: int| 0 <= j < enabled@.len() ==> e[j] == (#[trigger] enabled@[j])@);
    assert(forall|j: int| 0 <= j < required@.len() ==> r[j] == (#[trigger] required@[j])@);
    assert forall|k: int| 0 <= k < missing@.len() implies #[trigger] missing@[k]
        < required@.len() by {
        assert(0 <= indices[k] < r.len());
    }
    assert forall|j: int, k: int| 0 <= j < k < missing@.len() implies #[trigger] missing@[j]
        < #[trigger] missing@[k] by {
        assert(indices[j] < indices[k]);
    }
    assert forall|i: usize| i < required@.len() implies (#[trigger] missing@.contains(i) <==> {
        &&& forall|j: int|
            0 <= j < enabled@.len() ==> (#[trigger] enabled@[j])@ != required@[i as int]@
        &&& forall|j: int| 0 <= j < i ==> (#[trigger] required@[j])@ != required@[i as int]@
    }) by {
        if missing@.contains(i) {
            let k = choose|k: int| 0 <= k < missing@.len() && missing@[k] == i;
            assert(given[k] == i as int);
            assert(is_missing(e, r, indices[k]));
            assert forall|j: int| 0 <= j < enabled@.len() implies (#[trigger] enabled@[j])@
                != required@[i as int]@ by {
                assert(e.contains(e[j]));
            }
            assert forall|j: int| 0 <= j < i implies (#[trigger] required@[j])@
                != required@[i as int]@ by {
                assert(r.take(i as int)[j] == r[j]);
                assert(r.take(i as int).contains(r[j]));
            }
        } else if is_missing(e, r, i as int) {
            assert(indices.contains(i as int));
            let k = choose|k: int| 0 <= k < indices.len() && indices[k] == i as int;
            assert(missing@[k] == i);
        } else if e.contains(r[i as int]) {
            let j = choose|j: int| 0 <= j < e.len() && e[j] == r[i as int];
            assert(enabled@[j]@ == required@[i as int]@);
        } else {
            let early = r.take(i as int);
            let j = choose|j: int| 0 <= j < early.len() && early[j] == r[i as int];
            assert(required@[j]@ == required@[i as int]@);
        }
    }
}

} // verus!
