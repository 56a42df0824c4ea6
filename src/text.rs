use vstd::prelude::*;

verus! {

/// The character views of a sequence of strings.
pub open spec fn views(v: Seq<String>) -> Seq<Seq<char>> {
    v.map_values(|p: String| p@)
}

/// The pieces of `s` between single spaces, left to right. Repeated spaces
/// give empty pieces, and there is always one piece more than spaces.
pub open spec fn split_spaces(s: Seq<char>) -> Seq<Seq<char>>
    decreases s.len(),
{
    if s.len() == 0 {
        seq![Seq::<char>::empty()]
    } else {
        let pieces = split_spaces(s.drop_last());
        if s.last() == ' ' {
            pieces.push(Seq::<char>::empty())
        } else {
            pieces.update(pieces.len() - 1, pieces.last().push(s.last()))
        }
    }
}

/// Splitting always gives at least one piece.
pub proof fn lemma_split_nonempty(s: Seq<char>)
    ensures
        split_spaces(s).len() >= 1,
    decreases s.len(),
{
    if s.len() > 0 {
        lemma_split_nonempty(s.drop_last());
    }
}

/// Splits `line` at every space, keeping empty pieces.
pub fn split_spaces_exec(line: &str) -> (r: Vec<String>)
    ensures
        views(r@) == split_spaces(line@),
{
    let n = line.unicode_len();
    let mut pieces: Vec<String> = Vec::new();
    let mut start: usize = 0;
    let mut i: usize = 0;
    assert(line@.take(0) =~= Seq::<char>::empty());
    assert(views(pieces@) =~= Seq::<Seq<char>>::empty());
    while i < n
        invariant
            n == line@.len(),
            start <= i <= n,
            views(pieces@).push(line@.subrange(start as int, i as int)) == split_spaces(
                line@.take(i as int),
            ),
        decreases n - i,
    {
        let c = line.get_char(i);
        proof {
            let t = line@.take(i as int + 1);
            assert(t.drop_last() =~= line@.take(i as int));
            assert(t.last() == c);
            lemma_split_nonempty(line@.take(i as int));
        }
        let ghost before = pieces@;
        if c == ' ' {
            let piece = String::from_str(line.substring_char(start, i));
            let ghost pv = piece@;
            pieces.push(piece);
            assert(pieces@ == before.push(piece));
            assert(views(pieces@) =~= views(before).push(pv));
            start = i + 1;
        }
        i = i + 1;
        assert(line@.subrange(start as int, i as int) =~= if c == ' ' {
            Seq::<char>::empty()
        } else {
            line@.subrange(start as int, i - 1).push(c)
        });
    }
    let last = String::from_str(line.substring_char(start, n));
    pieces.push(last);
    proof {
        assert(line@.take(n as int) =~= line@);
    }
    pieces
}

/// A line that holds nothing but spaces (the empty line included).
pub open spec fn only_spaces(s: Seq<char>) -> bool {
    forall|i: int| 0 <= i < s.len() ==> s[i] == ' '
}

/// A line split into its first piece, the command keyword, and the pieces
/// after it, the arguments, in the order in which they were typed.
pub struct Tokens {
    pub keyword: Option<String>,
    pub args: Vec<String>,
}

/// Splits a line into keyword and arguments. A blank line has no keyword and
/// no arguments.
pub fn tokenize(line: &str) -> (r: Tokens)
    ensures
        only_spaces(line@) ==> r.keyword is None && r.args@.len() == 0,
        !only_spaces(line@) ==> {
            &&& r.keyword is Some
            &&& r.keyword->0@ == split_spaces(line@)[0]
            &&& views(r.args@) == split_spaces(line@).drop_first()
        },
{
    let n = line.unicode_len();
    let mut blank = true;
    let mut i: usize = 0;
    while i < n
        invariant
            n == line@.len(),
            i <= n,
            blank == only_spaces(line@.take(i as int)),
        decreases n - i,
    {
        let c = line.get_char(i);
        assert(line@.take(i as int + 1) =~= line@.take(i as int).push(c));
        if c != ' ' {
            assert(line@.take(i as int + 1)[i as int] == c);
            blank = false;
        } else if blank {
            assert forall|j: int| 0 <= j < i + 1 implies #[trigger] line@.take(i as int + 1)[j] == ' ' by {
                if j < i {
                    assert(line@.take(i as int)[j] == ' ');
                }
            }
        } else {
            proof {
                let j = choose|j: int| 0 <= j < i && line@.take(i as int)[j] != ' ';
                assert(line@.take(i as int + 1)[j] != ' ');
            }
        }
        i = i + 1;
    }
    assert(line@.take(n as int) =~= line@);
    if blank {
        return Tokens { keyword: None, args: Vec::new() };
    }
    let mut pieces = split_spaces_exec(line);
    proof {
        lemma_split_nonempty(line@);
    }
    let ghost all = pieces@;
    let keyword = pieces.remove(0);
    assert(views(pieces@) =~= views(all).drop_first());
    Tokens { keyword: Some(keyword), args: pieces }
}

/// The character for a decimal digit.
pub open spec fn digit_char(d: nat) -> char {
    seq!['0', '1', '2', '3', '4', '5', '6', '7', '8', '9'][d as int]
}

/// The decimal numeral of `n`, without leading zeros.
pub open spec fn decimal(n: nat) -> Seq<char>
    decreases n,
{
    if n < 10 {
        seq![digit_char(n)]
    } else {
        decimal(n / 10).push(digit_char(n % 10))
    }
}

fn digit_str(d: usize) -> (r: &'static str)
    requires
        d < 10,
    ensures
        r@ == seq![digit_char(d as nat)],
{
    proof {
        reveal_strlit("0");
        reveal_strlit("1");
        reveal_strlit("2");
        reveal_strlit("3");
        reveal_strlit("4");
        reveal_strlit("5");
        reveal_strlit("6");
        reveal_strlit("7");
        reveal_strlit("8");
        reveal_strlit("9");
    }
    let r = match d {
        0 => "0",
        1 => "1",
        2 => "2",
        3 => "3",
        4 => "4",
        5 => "5",
        6 => "6",
        7 => "7",
        8 => "8",
        _ => "9",
    };
    assert(r@ =~= seq![digit_char(d as nat)]);
    r
}

/// Writes `n` in decimal.
pub fn decimal_string(n: usize) -> (r: String)
    ensures
        r@ == decimal(n as nat),
    decreases n,
{
    if n < 10 {
        String::from_str(digit_str(n))
    } else {
        let mut s = decimal_string(n / 10);
        s.append(digit_str(n % 10));
        s
    }
}

/// Whether `a` and `b` hold the same characters.
pub fn same_text(a: &str, b: &str) -> (r: bool)
    ensures
        r == (a@ == b@),
{
    let n = a.unicode_len();
    if n != b.unicode_len() {
        return false;
    }
    let mut i: usize = 0;
    while i < n
        invariant
            n == a@.len(),
            n == b@.len(),
            i <= n,
            a@.take(i as int) == b@.take(i as int),
        decreases n - i,
    {
        let ca = a.get_char(i);
        let cb = b.get_char(i);
        if ca != cb {
            return false;
        }
        assert(a@.take(i as int + 1) =~= a@.take(i as int).push(ca));
        assert(b@.take(i as int + 1) =~= b@.take(i as int).push(cb));
        i = i + 1;
    }
    assert(a@ =~= a@.take(n as int));
    assert(b@ =~= b@.take(n as int));
    true
}

} // verus!
