//! The pieces that diagnostics and error messages are put together from.

use vstd::prelude::*;
use vstd::string::*;

verus! {

/// The character of one decimal digit.
pub open spec fn digit_char(d: int) -> char {
    if d == 0 {
        '0'
    } else if d == 1 {
        '1'
    } else if d == 2 {
        '2'
    } else if d == 3 {
        '3'
    } else if d == 4 {
        '4'
    } else if d == 5 {
        '5'
    } else if d == 6 {
        '6'
    } else if d == 7 {
        '7'
    } else if d == 8 {
        '8'
    } else {
        '9'
    }
}

/// `n` written in decimal, without leading zeros.
pub open spec fn decimal(n: nat) -> Seq<char>
    decreases n,
{
    if n < 10 {
        seq![digit_char(n as int)]
    } else {
        decimal(n / 10).push(digit_char((n % 10) as int))
    }
}

/// The characters of each of a list of strings.
pub open spec fn texts(list: Seq<String>) -> Seq<Seq<char>> {
    list.map_values(|s: String| s@)
}

/// The items of `list` one after the other, each with `sep` in front of it.
pub open spec fn each_after(list: Seq<Seq<char>>, sep: Seq<char>) -> Seq<char>
    decreases list.len(),
{
    if list.len() == 0 {
        Seq::empty()
    } else {
        sep + list[0] + each_after(list.drop_first(), sep)
    }
}

/// The items of `list` one after the other, with `sep` between any two
/// neighbours.
pub open spec fn joined(list: Seq<Seq<char>>, sep: Seq<char>) -> Seq<char> {
    if list.len() == 0 {
        Seq::empty()
    } else {
        list[0] + each_after(list.drop_first(), sep)
    }
}

/// The decimal texts of a list of numbers.
pub open spec fn decimals(list: Seq<u32>) -> Seq<Seq<char>> {
    list.map_values(|n: u32| decimal(n as nat))
}

fn digit_text(d: u64) -> (text: &'static str)
    requires
        d < 10,
    ensures
        text@ == seq![digit_char(d as int)],
{
    proof {
        reveal_strlit("0");
        reveal_strlit("1");
        reveal_strlit("2");
        reveal_strlit("3");
        reveal_strlit("4");
        reveal_strlit("5");
        reveal_strlit("6");
        reveal_strlit("7");
        reveal_strlit("8");
        reveal_strlit("9");
    }
    if d == 0 {
        "0"
    } else if d == 1 {
        "1"
    } else if d == 2 {
        "2"
    } else if d == 3 {
        "3"
    } else if d == 4 {
        "4"
    } else if d == 5 {
        "5"
    } else if d == 6 {
        "6"
    } else if d == 7 {
        "7"
    } else if d == 8 {
        "8"
    } else {
        "9"
    }
}

/// Writes a number in decimal.
pub fn decimal_text(n: u64) -> (text: String)
    ensures
        text@ == decimal(n as nat),
    decreases n,
{
    if n < 10 {
        digit_text(n).to_owned()
    } else {
        let mut text = decimal_text(n / 10);
        let ghost head = text@;
        text.append(digit_text(n % 10));
        assert(text@ == head.push(digit_char((n % 10) as int)));
        text
    }
}

/// Joins a list of strings with `sep` between any two neighbours.
pub fn join_texts(list: &Vec<String>, sep: &str) -> (text: String)
    ensures
        text@ == joined(texts(list@), sep@),
{
    let ghost items = texts(list@);
    if list.len() == 0 {
        return String::new();
    }
    let mut text = list[0].clone();
    let mut i: usize = 1;
    assert(items.skip(1) =~= items.drop_first());
    while i < list.len()
        invariant
            1 <= i <= list.len(),
            items == texts(list@),
            text@ + each_after(items.skip(i as int), sep@) == joined(items, sep@),
        decreases list.len() - i,
    {
        proof {
            assert(items.skip(i as int)[0] == list@[i as int]@);
            assert(items.skip(i as int).drop_first() =~= items.skip(i + 1));
        }
        let ghost before = text@;
        text.append(sep);
        text.append(list[i].as_str());
        assert(text@ + each_after(items.skip(i + 1), sep@) =~= before + each_after(
            items.skip(i as int),
            sep@,
        ));
        i += 1;
    }
    assert(items.skip(i as int) =~= Seq::empty());
    assert(text@ + Seq::<char>::empty() =~= text@);
    text
}

/// Writes a list of numbers the way `{:?}` does: `[43, 50]`.
pub fn list_text(numbers: &Vec<u32>) -> (text: String)
    ensures
        text@ == "["@ + joined(decimals(numbers@), ", "@) + "]"@,
{
    let mut items: Vec<String> = Vec::new();
    let mut i: usize = 0;
    while i < numbers.len()
        invariant
            i <= numbers.len(),
            items.len() == i,
            forall|k: int| 0 <= k < i ==> (#[trigger] items@[k])@ == decimal(numbers@[k] as nat),
        decreases numbers.len() - i,
    {
        items.push(decimal_text(numbers[i] as u64));
        i += 1;
    }
    assert(texts(items@) =~= decimals(numbers@));
    let mut text = "[".to_owned();
    text.append(join_texts(&items, ", ").as_str());
    text.append("]");
    text
}

/// The number that a row of decimal digits is read as.
pub open spec fn read_decimal(digits: Seq<char>) -> int
    decreases digits.len(),
{
    if digits.len() == 0 {
        0
    } else {
        read_decimal(digits.drop_last()) * 10 + (digits.last() as int - '0' as int)
    }
}

proof fn decimal_reads_back(n: nat)
    ensures
        decimal(n).len() > 0,
        forall|i: int| 0 <= i < decimal(n).len() ==> '0' <= #[trigger] decimal(n)[i] <= '9',
        read_decimal(decimal(n)) == n,
        n > 0 ==> decimal(n)[0] != '0',
    decreases n,
{
    reveal_with_fuel(read_decimal, 2);
    if n < 10 {
        assert(decimal(n).drop_last() =~= Seq::empty());
    } else {
        decimal_reads_back(n / 10);
        let front = decimal(n / 10);
        assert(decimal(n).drop_last() =~= front);
        assert forall|i: int| 0 <= i < decimal(n).len() implies '0' <= #[trigger] decimal(n)[i]
            <= '9' by {
            if i < front.len() {
                assert('0' <= front[i] <= '9');
            }
        }
    }
}

/// A number is written with digits alone, so that it is read back, and without a
/// zero in front unless it is zero itself.
pub proof fn written_number_reads_back(n: u64, text: String)
    requires
        call_ensures(decimal_text, (n,), text),
    ensures
        text@.len() > 0,
        forall|i: int| 0 <= i < text@.len() ==> '0' <= #[trigger] text@[i] <= '9',
        read_decimal(text@) == n,
        text@[0] == '0' ==> text@.len() == 1,
{
    decimal_reads_back(n as nat);
}

proof fn each_after_parts(a: Seq<Seq<char>>, b: Seq<Seq<char>>, sep: Seq<char>)
    ensures
        each_after(a + b, sep) == each_after(a, sep) + each_after(b, sep),
    decreases a.len(),
{
    if a.len() == 0 {
        assert(a + b =~= b);
        assert(each_after(a, sep) + each_after(b, sep) =~= each_after(b, sep));
    } else {
        each_after_parts(a.drop_first(), b, sep);
        assert((a + b).drop_first() =~= a.drop_first() + b);
        assert(each_after(a + b, sep) =~= each_after(a, sep) + each_after(b, sep));
    }
}

/// The joined text of two lists, neither of them empty, is that of the one, the
/// separator, and that of the other. A single item is joined to itself, and no
/// items to nothing.
pub proof fn joining_separates_neighbours(
    a: Seq<Seq<char>>,
    b: Seq<Seq<char>>,
    item: Seq<char>,
    sep: Seq<char>,
)
    ensures
        joined(Seq::empty(), sep) == Seq::<char>::empty(),
        joined(seq![item], sep) == item,
        a.len() > 0 && b.len() > 0 ==> joined(a + b, sep) == joined(a, sep) + sep + joined(b, sep),
{
    assert(seq![item].drop_first() =~= Seq::empty());
    assert(joined(seq![item], sep) =~= item);
    if a.len() > 0 && b.len() > 0 {
        each_after_parts(a.drop_first(), b, sep);
        assert((a + b).drop_first() =~= a.drop_first() + b);
        assert(joined(a + b, sep) =~= joined(a, sep) + sep + joined(b, sep));
    }
}

/// From call to call: a list that is made of two others, neither of them empty,
/// is joined to the texts of both with the separator between them; a list of one
/// is joined to its item, and an empty one to nothing.
pub proof fn joined_lists_are_separated(
    whole: Vec<String>,
    a: Vec<String>,
    b: Vec<String>,
    sep: &str,
    text: String,
    text_a: String,
    text_b: String,
)
    requires
        call_ensures(join_texts, (&whole, sep), text),
        call_ensures(join_texts, (&a, sep), text_a),
        call_ensures(join_texts, (&b, sep), text_b),
    ensures
        whole@.len() == 0 ==> text@.len() == 0,
        whole@.len() == 1 ==> text@ == whole@[0]@,
        a@.len() > 0 && b@.len() > 0 && whole@ == a@ + b@ ==> text@ == text_a@ + sep@ + text_b@,
{
    let items = texts(whole@);
    joining_separates_neighbours(texts(a@), texts(b@), items[0], sep@);
    if whole@.len() == 1 {
        assert(items =~= seq![items[0]]);
    }
    if whole@ == a@ + b@ {
        assert(items =~= texts(a@) + texts(b@));
    }
}

/// A list of numbers is written between brackets; inside them stand the numbers,
/// as each is written by itself, with a comma and a space between neighbours.
pub proof fn number_lists_are_bracketed(
    whole: Vec<u32>,
    a: Vec<u32>,
    b: Vec<u32>,
    text: String,
    text_a: String,
    text_b: String,
    alone: String,
)
    requires
        call_ensures(list_text, (&whole,), text),
        call_ensures(list_text, (&a,), text_a),
        call_ensures(list_text, (&b,), text_b),
        whole@.len() == 1 ==> call_ensures(decimal_text, (whole@[0] as u64,), alone),
    ensures
        whole@.len() == 0 ==> text@ == seq!['[', ']'],
        whole@.len() == 1 ==> text@ == seq!['['] + alone@ + seq![']'],
        a@.len() > 0 && b@.len() > 0 && whole@ == a@ + b@ ==> text@ == text_a@.drop_last() + seq![
            ',',
            ' ',
        ] + text_b@.drop_first(),
{
    reveal_strlit("[");
    reveal_strlit("]");
    reveal_strlit(", ");
    let items = decimals(whole@);
    let inner_a = joined(decimals(a@), ", "@);
    let inner_b = joined(decimals(b@), ", "@);
    joining_separates_neighbours(decimals(a@), decimals(b@), items[0], ", "@);
    if whole@.len() == 0 {
        assert(items =~= Seq::empty());
        assert(text@ =~= seq!['[', ']']);
    }
    if whole@.len() == 1 {
        assert(items =~= seq![items[0]]);
    }
    if a@.len() > 0 && b@.len() > 0 && whole@ == a@ + b@ {
        assert(items =~= decimals(a@) + decimals(b@));
        assert(text_a@.drop_last() =~= "["@ + inner_a);
        assert(text_b@.drop_first() =~= inner_b + "]"@);
        assert(", "@ =~= seq![',', ' ']);
        assert(text@ =~= text_a@.drop_last() + seq![',', ' '] + text_b@.drop_first());
    }
}

} // verus!
