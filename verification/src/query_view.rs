//! Rendering of the values that a Move view function returns.

use vstd::prelude::*;

verus! {

/// JSON values as serde_json holds them: carried through, and written out by
/// their `Display`.
#[verifier::external_type_specification]
#[verifier::external_body]
pub struct ExJsonValue(serde_json::Value);

/// The texts joined in order, with `sep` between each two neighbours.
pub open spec fn joined(texts: Seq<Seq<char>>, sep: Seq<char>) -> Seq<char>
    decreases texts.len(),
{
    if texts.len() == 0 {
        Seq::empty()
    } else if texts.len() == 1 {
        texts[0]
    } else {
        joined(texts.drop_last(), sep) + sep + texts.last()
    }
}

/// The separator between two items of a rendered list.
pub open spec fn item_separator() -> Seq<char> {
    seq![',', ' ']
}

/// A list of item texts as it is shown: `[a, b, c]`.
pub open spec fn bracketed_list(texts: Seq<Seq<char>>) -> Seq<char> {
    seq!['['] + joined(texts, item_separator()) + seq![']']
}

/// The views of a sequence of strings.
pub open spec fn string_views(texts: Seq<String>) -> Seq<Seq<char>> {
    texts.map_values(|t: String| t@)
}

/// Shows the texts of a view function's values as one list, `[a, b, c]`;
/// one value is shown as `[a]`.
pub fn render_view(texts: &Vec<String>) -> (out: String)
    requires
        texts.len() >= 1,
    ensures
        out@ == bracketed_list(string_views(texts@)),
{
    let ghost views = string_views(texts@);
    let mut out = String::from_str("[");
    proof {
        reveal_strlit("[");
        reveal_strlit("]");
    }
    if texts.len() > 1 {
        out.append(texts[0].as_str());
        let mut i: usize = 1;
        assert(views.take(1) =~= seq![views[0]]);
        while i < texts.len()
            invariant
                1 <= i <= texts.len(),
                views == string_views(texts@),
                out@ == seq!['['] + joined(views.take(i as int), item_separator()),
            decreases texts.len() - i,
        {
            out.append(", ");
            out.append(texts[i].as_str());
            proof {
                reveal_strlit(", ");
            }
            assert(", "@ =~= item_separator());
            assert(views.take(i + 1).drop_last() =~= views.take(i as int));
            assert(out@ =~= seq!['['] + joined(views.take(i + 1), item_separator()));
            i = i + 1;
        }
        assert(views.take(texts.len() as int) =~= views);
    } else {
        out.append(texts[0].as_str());
    }
    out.append("]");
    out
}

/// Shows the values that a view function returned as one list of their JSON
/// texts, `[a, b, c]`. The list must not be empty.
pub fn display_view(res: Vec<serde_json::Value>) -> (out: String)
    requires
        res.len() >= 1,
    ensures
        exists|texts: Seq<String>|
            #![trigger string_views(texts)]
            {
                &&& texts.len() == res.len()
                &&& forall|i: int|
                    0 <= i < res.len() ==> vstd::string::to_string_from_display_ensures::<
                        serde_json::Value,
                    >(&res@[i], #[trigger] texts[i])
                &&& out@ == bracketed_list(string_views(texts))
            },
{
    let mut texts: Vec<String> = Vec::new();
    let n = res.len();
    for i in 0..n
        invariant
            n == res.len(),
            texts.len() == i,
            forall|j: int|
                0 <= j < i ==> vstd::string::to_string_from_display_ensures::<serde_json::Value>(
                    &res@[j],
                    #[trigger] texts@[j],
                ),
    {
        texts.push(res[i].to_string());
    }
    render_view(&texts)
}

/// A rendered list opens with `[` and closes with `]`, and a list of one text
/// is that text between the brackets.
pub proof fn bracketed_list_shape(texts: Seq<Seq<char>>)
    requires
        texts.len() >= 1,
    ensures
        bracketed_list(texts)[0] == '[',
        bracketed_list(texts).last() == ']',
        texts.len() == 1 ==> bracketed_list(texts) == seq!['['] + texts[0] + seq![']'],
{
}

/// Rendering one more text appends the separator and that text inside the
/// closing bracket.
pub proof fn bracketed_list_push(texts: Seq<Seq<char>>, t: Seq<char>)
    requires
        texts.len() >= 1,
    ensures
        bracketed_list(texts.push(t)) == seq!['['] + joined(texts, item_separator())
            + item_separator() + t + seq![']'],
{
    assert(texts.push(t).drop_last() =~= texts);
}

/// The total length of the texts.
pub open spec fn total_len(texts: Seq<Seq<char>>) -> int
    decreases texts.len(),
{
    if texts.len() == 0 {
        0
    } else {
        total_len(texts.drop_last()) + texts.last().len()
    }
}

/// Where the `i`-th text starts inside a rendered list: after the opening
/// bracket, the `i` texts before it, and one separator of two characters
/// after each of them.
pub open spec fn item_start(texts: Seq<Seq<char>>, i: int) -> int {
    1 + total_len(texts.take(i)) + 2 * i
}

/// The total length of texts is never negative.
proof fn total_len_nonneg(texts: Seq<Seq<char>>)
    ensures
        total_len(texts) >= 0,
    decreases texts.len(),
{
    if texts.len() > 0 {
        total_len_nonneg(texts.drop_last());
    }
}

/// The length of texts joined with a two-character separator.
proof fn joined_len(texts: Seq<Seq<char>>, sep: Seq<char>)
    requires
        texts.len() >= 1,
        sep.len() == 2,
    ensures
        joined(texts, sep).len() == total_len(texts) + 2 * (texts.len() - 1),
    decreases texts.len(),
{
    if texts.len() > 1 {
        joined_len(texts.drop_last(), sep);
    } else {
        assert(texts.drop_last() =~= Seq::<Seq<char>>::empty());
        assert(total_len(texts) == total_len(texts.drop_last()) + texts.last().len());
    }
}

/// Where the `i`-th text stands in texts joined with a two-character
/// separator, and the separator just before it.
proof fn joined_item(texts: Seq<Seq<char>>, sep: Seq<char>, i: int)
    requires
        0 <= i < texts.len(),
        sep.len() == 2,
    ensures
        1 <= item_start(texts, i),
        item_start(texts, i) - 1 + texts[i].len() <= joined(texts, sep).len(),
        joined(texts, sep).subrange(item_start(texts, i) - 1, item_start(texts, i) - 1 + texts[i].len())
            == texts[i],
        i > 0 ==> 3 <= item_start(texts, i),
        i > 0 ==> joined(texts, sep).subrange(item_start(texts, i) - 3, item_start(texts, i) - 1)
            == sep,
    decreases texts.len(),
{
    let n = texts.len() as int;
    let j = joined(texts, sep);
    let a = item_start(texts, i) - 1;
    if n == 1 {
        assert(texts.take(0) =~= Seq::<Seq<char>>::empty());
        assert(j.subrange(0, texts[0].len() as int) =~= texts[0]);
    } else {
        let front = texts.drop_last();
        let jf = joined(front, sep);
        assert(j == jf + sep + texts.last());
        joined_len(front, sep);
        if i < n - 1 {
            joined_item(front, sep, i);
            assert(texts.take(i) =~= front.take(i));
            assert(front[i] == texts[i]);
            assert(j.subrange(a, a + texts[i].len()) =~= jf.subrange(a, a + texts[i].len()));
            if i > 0 {
                assert(j.subrange(a - 2, a) =~= jf.subrange(a - 2, a));
            }
        } else {
            assert(texts.take(n - 1) =~= front);
            total_len_nonneg(front);
            assert(a == jf.len() + 2);
            assert(j.subrange(a, a + texts[i].len()) =~= texts.last());
            assert(j.subrange(a - 2, a) =~= sep);
        }
    }
}

/// A rendered list of `n >= 1` texts is laid out character by character:
/// it is `2 + (sum of the texts' lengths) + 2 * (n - 1)` long, opens with `[`
/// and closes with `]`, holds every text, in order, at its own place (none is
/// dropped, merged or moved), and has exactly `", "` between each two
/// neighbouring texts. These positions cover every character of the list.
pub proof fn bracketed_list_layout(texts: Seq<Seq<char>>)
    requires
        texts.len() >= 1,
    ensures
        bracketed_list(texts).len() == 2 + total_len(texts) + 2 * (texts.len() - 1),
        bracketed_list(texts)[0] == '[',
        bracketed_list(texts)[bracketed_list(texts).len() - 1] == ']',
        forall|i: int|
            0 <= i < texts.len() ==> bracketed_list(texts).subrange(
                item_start(texts, i),
                item_start(texts, i) + texts[i].len(),
            ) == #[trigger] texts[i],
        forall|i: int|
            0 < i < texts.len() ==> #[trigger] bracketed_list(texts).subrange(
                item_start(texts, i) - 2,
                item_start(texts, i),
            ) == seq![',', ' '],
{
    let sep = item_separator();
    joined_len(texts, sep);
    let r = bracketed_list(texts);
    assert(r == seq!['['] + joined(texts, sep) + seq![']']);
    assert(r.len() == 2 + total_len(texts) + 2 * (texts.len() - 1));
    assert(r[0] == '[');
    assert(r[r.len() - 1] == ']');
    assert forall|i: int|
        0 <= i < texts.len() implies bracketed_list(texts).subrange(
            item_start(texts, i),
            item_start(texts, i) + texts[i].len(),
        ) == #[trigger] texts[i] by {
        bracketed_item(texts, i);
    }
    assert forall|i: int|
        0 < i < texts.len() implies #[trigger] bracketed_list(texts).subrange(
            item_start(texts, i) - 2,
            item_start(texts, i),
        ) == seq![',', ' '] by {
        bracketed_item(texts, i);
    }
}

/// Where the `i`-th text, and the separator before it, stand in a rendered
/// list.
proof fn bracketed_item(texts: Seq<Seq<char>>, i: int)
    requires
        0 <= i < texts.len(),
    ensures
        bracketed_list(texts).subrange(item_start(texts, i), item_start(texts, i) + texts[i].len())
            == texts[i],
        i > 0 ==> bracketed_list(texts).subrange(item_start(texts, i) - 2, item_start(texts, i))
            == seq![',', ' '],
{
    let sep = item_separator();
    joined_item(texts, sep, i);
    let j = joined(texts, sep);
    let r = bracketed_list(texts);
    let a = item_start(texts, i);
    assert(r.subrange(a, a + texts[i].len()) =~= j.subrange(a - 1, a - 1 + texts[i].len()));
    if i > 0 {
        assert(r.subrange(a - 2, a) =~= j.subrange(a - 3, a - 1));
    }
}

} // verus!
