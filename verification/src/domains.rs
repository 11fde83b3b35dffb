//! The domain list: a text of domain names separated by white space, each
//! watched over https.
use vstd::prelude::*;

verus! {

/// The scheme and separator put before each listed domain.
pub const HTTPS_PREFIX: &'static str = "https://";

/// Unicode `White_Space`: the characters `char::is_whitespace` accepts.
pub open spec fn is_whitespace(c: char) -> bool {
    let n = c as u32;
    ||| 0x9 <= n <= 0xd
    ||| n == 0x20
    ||| n == 0x85
    ||| n == 0xa0
    ||| n == 0x1680
    ||| 0x2000 <= n <= 0x200a
    ||| n == 0x2028
    ||| n == 0x2029
    ||| n == 0x202f
    ||| n == 0x205f
    ||| n == 0x3000
}

/// The words of `s`: its maximal runs of characters that are not white
/// space, in order. Read from the end: a white-space character adds no word,
/// any other character either extends the last word (when it follows a
/// character of that word) or starts a new one.
pub open spec fn words(s: Seq<char>) -> Seq<Seq<char>>
    decreases s.len(),
{
    if s.len() == 0 {
        seq![]
    } else {
        let init = words(s.drop_last());
        let c = s.last();
        if is_whitespace(c) {
            init
        } else if s.len() >= 2 && !is_whitespace(s[s.len() - 2]) {
            init.drop_last().push(init.last().push(c))
        } else {
            init.push(seq![c])
        }
    }
}

/// The address watched for a listed domain.
pub open spec fn https_url(domain: Seq<char>) -> Seq<char> {
    HTTPS_PREFIX@ + domain
}

/// The texts held by a list of strings.
pub open spec fn texts(v: Seq<String>) -> Seq<Seq<char>> {
    v.map_values(|w: String| w@)
}

/// The addresses watched for a list of domains.
pub open spec fn https_urls(domains: Seq<Seq<char>>) -> Seq<Seq<char>> {
    domains.map_values(|w: Seq<char>| https_url(w))
}

/// Whether `c` is white space (as `char::is_whitespace`).
pub fn is_whitespace_char(c: char) -> (r: bool)
    ensures
        r == is_whitespace(c),
{
    let n = c as u32;
    (0x9 <= n && n <= 0xd) || n == 0x20 || n == 0x85 || n == 0xa0 || n == 0x1680 || (0x2000 <= n
        && n <= 0x200a) || n == 0x2028 || n == 0x2029 || n == 0x202f || n == 0x205f || n == 0x3000
}

/// A word that starts at `start` and runs to the end of `s` is the last
/// word of `s`, after the words of the text before it.
proof fn lemma_words_run(s: Seq<char>, start: int)
    requires
        0 <= start < s.len(),
        start == 0 || is_whitespace(s[start - 1]),
        forall|k: int| start <= k < s.len() ==> !is_whitespace(#[trigger] s[k]),
    ensures
        words(s) == words(s.take(start)).push(s.subrange(start, s.len() as int)),
    decreases s.len(),
{
    let n = s.len() as int;
    assert(s.drop_last() =~= s.take(n - 1));
    if n - 1 == start {
        assert(s.take(start) =~= s.drop_last());
        assert(s.subrange(start, n) =~= seq![s.last()]);
    } else {
        lemma_words_run(s.drop_last(), start);
        assert(s.drop_last().take(start) =~= s.take(start));
        assert(s.drop_last().subrange(start, n - 1).push(s.last()) =~= s.subrange(start, n));
        assert(s[n - 2] == s.drop_last()[n - 2]);
    }
}

/// The words of `text`, in order (as `str::split_whitespace`).
pub fn split_whitespace(text: &str) -> (r: Vec<String>)
    ensures
        texts(r@) == words(text@),
{
    let n = text.unicode_len();
    let ghost s = text@;
    let mut out: Vec<String> = Vec::new();
    let mut in_word = false;
    let mut start: usize = 0;
    let mut i: usize = 0;
    while i < n
        invariant
            s == text@,
            n == s.len(),
            i <= n,
            start <= i,
            in_word <==> start < i,
            in_word ==> !is_whitespace(s[i - 1]),
            !in_word ==> i == 0 || is_whitespace(s[i - 1]),
            start == 0 || is_whitespace(s[start - 1]),
            forall|k: int| start <= k < i ==> !is_whitespace(#[trigger] s[k]),
            !in_word ==> texts(out@) == words(s.take(i as int)),
            in_word ==> texts(out@) == words(s.take(start as int)),
        decreases n - i,
    {
        let c = text.get_char(i);
        let ghost t = s.take(i + 1);
        assert(t.drop_last() =~= s.take(i as int));
        assert(t.last() == c);
        if is_whitespace_char(c) {
            if in_word {
                proof {
                    lemma_words_run(s.take(i as int), start as int);
                    assert(s.take(i as int).take(start as int) =~= s.take(start as int));
                    assert(s.take(i as int).subrange(start as int, i as int) =~= s.subrange(
                        start as int,
                        i as int,
                    ));
                }
                let w = text.substring_char(start, i).to_owned();
                let ghost before = out@;
                out.push(w);
                assert(texts(out@) =~= texts(before).push(s.subrange(start as int, i as int)));
                in_word = false;
            }
            start = i + 1;
        } else {
            if !in_word {
                start = i;
                in_word = true;
            }
        }
        i = i + 1;
    }
    if in_word {
        proof {
            lemma_words_run(s, start as int);
        }
        let w = text.substring_char(start, n).to_owned();
        let ghost before = out@;
        out.push(w);
        assert(texts(out@) =~= texts(before).push(s.subrange(start as int, n as int)));
    }
    assert(s.take(n as int) =~= s);
    out
}

/// The addresses watched for the domains listed in `text`: each word of the
/// text, in order, behind `https://`.
pub fn domain_urls(text: &str) -> (r: Vec<String>)
    ensures
        texts(r@) == https_urls(words(text@)),
{
    let names = split_whitespace(text);
    let mut out: Vec<String> = Vec::new();
    let mut i: usize = 0;
    while i < names.len()
        invariant
            i <= names@.len(),
            texts(names@) == words(text@),
            out@.len() == i,
            forall|k: int| 0 <= k < i ==> #[trigger] out@[k]@ == https_url(names@[k]@),
        decreases names@.len() - i,
    {
        let url = HTTPS_PREFIX.to_owned().concat(names[i].as_str());
        out.push(url);
        i = i + 1;
    }
    assert(texts(out@) =~= https_urls(words(text@))) by {
        assert forall|k: int| 0 <= k < out@.len() implies #[trigger] texts(out@)[k] == https_urls(
            words(text@),
        )[k] by {
            assert(texts(names@)[k] == names@[k]@);
        }
    }
    out
}

/// Every word of a text is non-empty and holds no white space.
pub proof fn lemma_words_are_words(s: Seq<char>)
    ensures
        forall|i: int| 0 <= i < words(s).len() ==> #[trigger] words(s)[i].len() > 0,
        forall|i: int, k: int|
            0 <= i < words(s).len() && 0 <= k < words(s)[i].len() ==> !is_whitespace(
                #[trigger] words(s)[i][k],
            ),
    decreases s.len(),
{
    if s.len() > 0 {
        lemma_words_are_words(s.drop_last());
        let init = words(s.drop_last());
        if !is_whitespace(s.last()) && s.len() >= 2 && !is_whitespace(s[s.len() - 2]) {
            lemma_words_nonempty(s.drop_last());
            assert forall|i: int, k: int|
                0 <= i < words(s).len() && 0 <= k < words(s)[i].len() implies !is_whitespace(
                #[trigger] words(s)[i][k],
            ) by {
                if i < init.len() - 1 {
                    assert(words(s)[i] == init[i]);
                } else if k < init.last().len() {
                    assert(words(s)[i][k] == init[init.len() - 1][k]);
                }
            }
        }
    }
}

/// A text that ends in a character that is not white space has a word.
proof fn lemma_words_nonempty(s: Seq<char>)
    requires
        s.len() > 0,
        !is_whitespace(s.last()),
    ensures
        words(s).len() > 0,
    decreases s.len(),
{
    if s.len() >= 2 && !is_whitespace(s[s.len() - 2]) {
        lemma_words_nonempty(s.drop_last());
    }
}

/// The white-space characters are exactly the 25 characters of Unicode's
/// `White_Space` property: tab, line feed, vertical tab, form feed, carriage
/// return, space, next line, no-break space, ogham space mark, the eleven
/// spaces from en quad to hair space, line separator, paragraph separator,
/// narrow no-break space, medium mathematical space and ideographic space.
pub proof fn lemma_white_space_characters(c: char)
    ensures
        is_whitespace(c) <==> {
            ||| c == '\t'
            ||| c == '\n'
            ||| c == '\u{0B}'
            ||| c == '\u{0C}'
            ||| c == '\r'
            ||| c == ' '
            ||| c == '\u{85}'
            ||| c == '\u{A0}'
            ||| c == '\u{1680}'
            ||| c == '\u{2000}'
            ||| c == '\u{2001}'
            ||| c == '\u{2002}'
            ||| c == '\u{2003}'
            ||| c == '\u{2004}'
            ||| c == '\u{2005}'
            ||| c == '\u{2006}'
            ||| c == '\u{2007}'
            ||| c == '\u{2008}'
            ||| c == '\u{2009}'
            ||| c == '\u{200A}'
            ||| c == '\u{2028}'
            ||| c == '\u{2029}'
            ||| c == '\u{202F}'
            ||| c == '\u{205F}'
            ||| c == '\u{3000}'
        },
{
}

/// A white-space character splits a text in two: the words of the whole are
/// the words before it followed by the words after it.
pub proof fn lemma_words_split(a: Seq<char>, c: char, b: Seq<char>)
    requires
        is_whitespace(c),
    ensures
        words(a.push(c) + b) == words(a) + words(b),
    decreases b.len(),
{
    let whole = a.push(c) + b;
    if b.len() == 0 {
        assert(whole =~= a.push(c));
        assert(a.push(c).drop_last() =~= a);
        assert(words(b) =~= Seq::<Seq<char>>::empty());
        assert(words(a) + words(b) =~= words(a));
    } else {
        let b0 = b.drop_last();
        let d = b.last();
        lemma_words_split(a, c, b0);
        assert(whole.drop_last() =~= a.push(c) + b0);
        assert(whole.last() == d);
        let x = words(a);
        let y = words(b0);
        if is_whitespace(d) {
        } else if b.len() >= 2 && !is_whitespace(b[b.len() - 2]) {
            assert(whole[whole.len() - 2] == b[b.len() - 2]);
            lemma_words_nonempty(b0);
            assert((x + y).drop_last().push((x + y).last().push(d)) =~= x + y.drop_last().push(
                y.last().push(d),
            ));
        } else {
            if b.len() >= 2 {
                assert(whole[whole.len() - 2] == b[b.len() - 2]);
            } else {
                assert(whole[whole.len() - 2] == c);
                assert(b0 =~= Seq::<char>::empty());
            }
            assert((x + y).push(seq![d]) =~= x + y.push(seq![d]));
        }
    }
}

/// A line end written as carriage return and line feed separates words as
/// a lone line feed does: neither character ends up in a word.
pub proof fn lemma_crlf_separates_words(a: Seq<char>, b: Seq<char>)
    ensures
        words(a + seq!['\r', '\n'] + b) == words(a) + words(b),
{
    lemma_white_space_characters('\r');
    lemma_white_space_characters('\n');
    lemma_words_split(a, '\r', seq!['\n'] + b);
    assert(a + seq!['\r', '\n'] + b =~= a.push('\r') + (seq!['\n'] + b));
    lemma_words_split(Seq::<char>::empty(), '\n', b);
    assert(Seq::<char>::empty().push('\n') + b =~= seq!['\n'] + b);
    assert(words(Seq::<char>::empty()) =~= Seq::<Seq<char>>::empty());
    assert(words(Seq::<char>::empty()) + words(b) =~= words(b));
}

} // verus!
