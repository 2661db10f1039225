//! The directory lister: sorts the entry names of a directory, renders one
//! line per visible entry (a thumbnail-preview block for recognized image
//! extensions, a plain link otherwise), and wraps the lines in a fixed page
//! shell with title, parent link and footer.
//!
//! Policy choices, stated once here: entries are ordered by code point
//! (which coincides with byte order of their UTF-8 encodings); dotfiles are
//! hidden uniformly, so the reserved cache area, whose name starts with a
//! dot, never appears in a listing; image extensions are matched
//! ASCII-case-insensitively.

use vstd::prelude::*;
use vstd::multiset::Multiset;
use vstd::relations::{sorted_by, total_ordering};
use vstd::seq_lib::lemma_sorted_unique;
use crate::strutil::{last_idx_of, lemma_last_idx_of, find_last, str_concat, str_slice};

verus! {

broadcast use vstd::seq_lib::group_to_multiset_ensures;

/// Code-point order on character sequences: the usual lexicographic order.
pub open spec fn lex_leq(a: Seq<char>, b: Seq<char>) -> bool
    decreases a.len(),
{
    if a.len() == 0 {
        true
    } else if b.len() == 0 {
        false
    } else if a[0] != b[0] {
        (a[0] as u32) < (b[0] as u32)
    } else {
        lex_leq(a.drop_first(), b.drop_first())
    }
}

/// The order as a function value, for use with vstd's sorting vocabulary.
pub open spec fn lex_fn() -> spec_fn(Seq<char>, Seq<char>) -> bool {
    |a: Seq<char>, b: Seq<char>| lex_leq(a, b)
}

pub proof fn lemma_lex_refl(a: Seq<char>)
    ensures
        lex_leq(a, a),
    decreases a.len(),
{
    if a.len() > 0 {
        lemma_lex_refl(a.drop_first());
    }
}

pub proof fn lemma_lex_total(a: Seq<char>, b: Seq<char>)
    ensures
        lex_leq(a, b) || lex_leq(b, a),
    decreases a.len(),
{
    if a.len() > 0 && b.len() > 0 {
        if a[0] == b[0] {
            lemma_lex_total(a.drop_first(), b.drop_first());
        } else {
            vstd::utf8::char_u32_cast(a[0], a[0] as u32);
            vstd::utf8::char_u32_cast(b[0], b[0] as u32);
            assert((a[0] as u32) != (b[0] as u32));
        }
    }
}

pub proof fn lemma_lex_antisym(a: Seq<char>, b: Seq<char>)
    requires
        lex_leq(a, b),
        lex_leq(b, a),
    ensures
        a == b,
    decreases a.len(),
{
    if a.len() > 0 && b.len() > 0 {
        lemma_lex_antisym(a.drop_first(), b.drop_first());
        assert(a[0] == b[0]);
        assert(a.drop_first().len() == b.drop_first().len());
        assert(a.len() == b.len());
        assert forall|i: int| 0 <= i < a.len() implies a[i] == b[i] by {
            if i > 0 {
                assert(a[i] == a.drop_first()[i - 1]);
                assert(b[i] == b.drop_first()[i - 1]);
            }
        }
        assert(a =~= b);
    } else {
        assert(a =~= b);
    }
}

pub proof fn lemma_lex_trans(a: Seq<char>, b: Seq<char>, c: Seq<char>)
    requires
        lex_leq(a, b),
        lex_leq(b, c),
    ensures
        lex_leq(a, c),
    decreases a.len(),
{
    if a.len() > 0 && b.len() > 0 && c.len() > 0 {
        if a[0] == b[0] && b[0] == c[0] {
            lemma_lex_trans(a.drop_first(), b.drop_first(), c.drop_first());
        }
    }
}

/// Code-point order is a total order in vstd's sense.
pub proof fn lemma_lex_total_ordering()
    ensures
        total_ordering(lex_fn()),
{
    assert forall|a: Seq<char>| #[trigger] lex_fn()(a, a) by {
        lemma_lex_refl(a);
    }
    assert forall|a: Seq<char>, b: Seq<char>|
        #[trigger] lex_fn()(a, b) && #[trigger] lex_fn()(b, a) implies a == b by {
        lemma_lex_antisym(a, b);
    }
    assert forall|a: Seq<char>, b: Seq<char>, c: Seq<char>|
        #[trigger] lex_fn()(a, b) && #[trigger] lex_fn()(b, c) implies lex_fn()(a, c) by {
        lemma_lex_trans(a, b, c);
    }
    assert forall|a: Seq<char>, b: Seq<char>|
        #[trigger] lex_fn()(a, b) || #[trigger] lex_fn()(b, a) by {
        lemma_lex_total(a, b);
    }
}

/// Decides `lex_leq` on string slices.
pub fn str_lex_leq(a: &str, b: &str) -> (r: bool)
    ensures
        r == lex_leq(a@, b@),
{
    let alen = a.unicode_len();
    let blen = b.unicode_len();
    proof {
        assert(a@.skip(0) =~= a@);
        assert(b@.skip(0) =~= b@);
    }
    let mut i: usize = 0;
    while i < alen && i < blen
        invariant
            alen == a@.len(),
            blen == b@.len(),
            i <= alen,
            i <= blen,
            lex_leq(a@, b@) == lex_leq(a@.skip(i as int), b@.skip(i as int)),
        decreases alen - i,
    {
        let ca = a.get_char(i);
        let cb = b.get_char(i);
        proof {
            assert(a@.skip(i as int)[0] == a@[i as int]);
            assert(b@.skip(i as int)[0] == b@[i as int]);
        }
        if ca != cb {
            return (ca as u32) < (cb as u32);
        }
        proof {
            assert(a@.skip(i as int).drop_first() =~= a@.skip(i + 1));
            assert(b@.skip(i as int).drop_first() =~= b@.skip(i + 1));
        }
        i = i + 1;
    }
    proof {
        if i == alen {
            assert(a@.skip(i as int).len() == 0);
        } else {
            assert(b@.skip(i as int).len() == 0);
            assert(a@.skip(i as int).len() > 0);
        }
    }
    alen <= blen
}

/// The canonical sorted arrangement of a collection of names.
pub open spec fn sorted_names(names: Seq<Seq<char>>) -> Seq<Seq<char>> {
    names.sort_by(lex_fn())
}

/// Sorts entry names ascending by code-point order.
pub fn sort_names(input: &Vec<String>) -> (r: Vec<String>)
    ensures
        r.deep_view() == sorted_names(input.deep_view()),
{
    let mut rest: Vec<String> = Vec::new();
    let mut i: usize = 0;
    while i < input.len()
        invariant
            i <= input@.len(),
            rest@.len() == i,
            forall|j: int| 0 <= j < i ==> rest@[j] == input@[j],
        decreases input@.len() - i,
    {
        rest.push(input[i].clone());
        i = i + 1;
    }
    assert(rest.deep_view() =~= input.deep_view());
    let ghost all = input.deep_view();
    let mut out: Vec<String> = Vec::new();
    while rest.len() > 0
        invariant
            out.deep_view().to_multiset().add(rest.deep_view().to_multiset())
                == all.to_multiset(),
            sorted_by(out.deep_view(), lex_fn()),
            forall|x: int, y: int|
                0 <= x < out.deep_view().len() && 0 <= y < rest.deep_view().len()
                    ==> #[trigger] lex_fn()(out.deep_view()[x], rest.deep_view()[y]),
        decreases rest@.len(),
    {
        let mut m: usize = 0;
        let mut k: usize = 1;
        proof {
            lemma_lex_refl(rest.deep_view()[0]);
        }
        while k < rest.len()
            invariant
                rest@.len() > 0,
                m < k,
                k <= rest@.len(),
                forall|j: int|
                    0 <= j < k ==> #[trigger] lex_leq(rest.deep_view()[m as int],
                        rest.deep_view()[j]),
            decreases rest@.len() - k,
        {
            if str_lex_leq(rest[k].as_str(), rest[m].as_str()) {
                proof {
                    assert forall|j: int| 0 <= j < k + 1 implies #[trigger] lex_leq(
                        rest.deep_view()[k as int],
                        rest.deep_view()[j],
                    ) by {
                        if j < k {
                            lemma_lex_trans(
                                rest.deep_view()[k as int],
                                rest.deep_view()[m as int],
                                rest.deep_view()[j],
                            );
                        } else {
                            lemma_lex_refl(rest.deep_view()[k as int]);
                        }
                    }
                }
                m = k;
            } else {
                proof {
                    lemma_lex_total(rest.deep_view()[k as int], rest.deep_view()[m as int]);
                }
            }
            k = k + 1;
        }
        let ghost old_out = out.deep_view();
        let ghost old_rest = rest.deep_view();
        let picked = rest.remove(m);
        out.push(picked);
        proof {
            assert(out.deep_view() =~= old_out.push(picked@));
            assert(rest.deep_view() =~= old_rest.remove(m as int));
            // the multiset balance is preserved: one occurrence moved over
            assert(old_rest.to_multiset().contains(old_rest[m as int]));
            assert(out.deep_view().to_multiset() =~= old_out.to_multiset().insert(picked@));
            assert(rest.deep_view().to_multiset() =~= old_rest.to_multiset().remove(
                old_rest[m as int],
            ));
            assert(out.deep_view().to_multiset().add(rest.deep_view().to_multiset()) =~= old_out
                .to_multiset().add(old_rest.to_multiset()));
            // the new element keeps `out` sorted and below everything left
            assert forall|y: int| 0 <= y < rest.deep_view().len() implies #[trigger] lex_fn()(
                picked@,
                rest.deep_view()[y],
            ) by {
                if y < m {
                    assert(rest.deep_view()[y] == old_rest[y]);
                } else {
                    assert(rest.deep_view()[y] == old_rest[y + 1]);
                }
            }
            assert forall|x: int, y: int|
                0 <= x < y < out.deep_view().len() implies #[trigger] lex_fn()(
                out.deep_view()[x],
                out.deep_view()[y],
            ) by {
                if y < out.deep_view().len() - 1 {
                    assert(lex_fn()(old_out[x], old_out[y]));
                }
            }
        }
    }
    proof {
        assert(rest.deep_view().to_multiset() =~= Multiset::empty());
        assert(out.deep_view().to_multiset() =~= all.to_multiset());
        lemma_lex_total_ordering();
        all.lemma_sort_by_ensures(lex_fn());
        lemma_sorted_unique(out.deep_view(), sorted_names(all), lex_fn());
        assert(out.deep_view() =~= sorted_names(all));
    }
    out
}

/// A name the listing hides: the uniform dotfile policy.
pub open spec fn is_hidden(name: Seq<char>) -> bool {
    name.len() > 0 && name[0] == '.'
}

/// The piece of a name that image recognition looks at: after the last `.`,
/// or the whole name when it has no dot.
pub open spec fn image_probe(name: Seq<char>) -> Seq<char> {
    if last_idx_of(name, '.') >= 0 {
        name.subrange(last_idx_of(name, '.') + 1, name.len() as int)
    } else {
        name
    }
}

/// `c` is `lower` up to ASCII case.
pub open spec fn ascii_ci(c: char, lower: char, upper: char) -> bool {
    c == lower || c == upper
}

/// The fixed image extension set, matched ASCII-case-insensitively.
pub open spec fn is_image_ext(e: Seq<char>) -> bool {
    e.len() == 3 && ((ascii_ci(e[0], 'j', 'J') && ascii_ci(e[1], 'p', 'P') && ascii_ci(
        e[2],
        'g',
        'G',
    )) || (ascii_ci(e[0], 'p', 'P') && ascii_ci(e[1], 'n', 'N') && ascii_ci(e[2], 'g', 'G')) || (
    ascii_ci(e[0], 'g', 'G') && ascii_ci(e[1], 'i', 'I') && ascii_ci(e[2], 'f', 'F')) || (ascii_ci(
        e[0],
        'i',
        'I',
    ) && ascii_ci(e[1], 'c', 'C') && ascii_ci(e[2], 'o', 'O')))
}

/// An entry rendered with a thumbnail-preview block.
pub open spec fn is_image_name(name: Seq<char>) -> bool {
    is_image_ext(image_probe(name))
}

/// The root-relative path of an entry of the directory whose root-relative
/// path is `rel_dir`.
pub open spec fn entry_rel(rel_dir: Seq<char>, name: Seq<char>) -> Seq<char> {
    if rel_dir.len() == 0 {
        name
    } else if rel_dir[rel_dir.len() - 1] == '/' {
        rel_dir + name
    } else {
        rel_dir + "/"@ + name
    }
}

/// One rendered line of the listing: nothing for a hidden entry, a
/// thumbnail-preview block wrapped around a link for an image, a plain link
/// otherwise.
pub open spec fn model_entry_html(rel_dir: Seq<char>, name: Seq<char>) -> Seq<char> {
    if is_hidden(name) {
        Seq::empty()
    } else if is_image_name(name) {
        "<div class=\"thumbnail-container\"><img src=\"/"@ + entry_rel(rel_dir, name)
            + ".thumbnail\" alt=\"preview\"></div><a href=\"/"@ + entry_rel(rel_dir, name)
            + "\">"@ + name + "</a><br>"@
    } else {
        "<a href=\"/"@ + entry_rel(rel_dir, name) + "\">"@ + name + "</a><br>"@
    }
}

/// The rendered lines of `names`, in order.
pub open spec fn entries_html(rel_dir: Seq<char>, names: Seq<Seq<char>>) -> Seq<char>
    decreases names.len(),
{
    if names.len() == 0 {
        Seq::empty()
    } else {
        model_entry_html(rel_dir, names[0]) + entries_html(rel_dir, names.drop_first())
    }
}

pub proof fn lemma_entries_html_snoc(rel_dir: Seq<char>, names: Seq<Seq<char>>, x: Seq<char>)
    ensures
        entries_html(rel_dir, names.push(x)) == entries_html(rel_dir, names) + model_entry_html(
            rel_dir,
            x,
        ),
    decreases names.len(),
{
    if names.len() == 0 {
        assert(names.push(x).drop_first() =~= names);
        assert(entries_html(rel_dir, names.push(x)) =~= entries_html(rel_dir, names)
            + model_entry_html(rel_dir, x));
    } else {
        assert(names.push(x).drop_first() =~= names.drop_first().push(x));
        assert(names.push(x)[0] == names[0]);
        lemma_entries_html_snoc(rel_dir, names.drop_first(), x);
        assert(entries_html(rel_dir, names.push(x)) =~= entries_html(rel_dir, names)
            + model_entry_html(rel_dir, x));
    }
}

/// The up-link target: the parent's root-relative path when the parent lies
/// strictly below the content root, else the no-parent sentinel `*` (whose
/// href lists the root itself).
pub open spec fn parent_of(rel: Seq<char>) -> Seq<char> {
    let t = if rel.len() > 0 && rel[rel.len() - 1] == '/' {
        rel.drop_last()
    } else {
        rel
    };
    if last_idx_of(t, '/') >= 1 {
        t.subrange(0, last_idx_of(t, '/'))
    } else {
        "*"@
    }
}

/// The fixed page shell up to the title, with the embedded stylesheet for
/// the thumbnail grid.
pub open spec fn page_header() -> Seq<char> {
    "<!DOCTYPE html><head><style>.thumbnail-container{width:200px;height:200px;background-color:grey;display:flex;align-items:center;justify-content:center;overflow:hidden}.thumbnail-container img{max-height:100%;max-width:100%}</style></head><body>"@
}

/// The fixed closing footer block.
pub open spec fn page_footer() -> Seq<char> {
    "</body><footer><p>- serben -</p></footer></html>"@
}

/// The whole listing page for the directory whose root-relative path is
/// `rel_dir`, with its visible entries rendered from `names` in order:
/// shell, title, exactly one parent link, one line per visible entry, footer.
pub open spec fn model_listing_page(rel_dir: Seq<char>, names: Seq<Seq<char>>) -> Seq<char> {
    page_header() + "<h1>Index: /"@ + rel_dir + "</h1><a href=\"/"@ + parent_of(rel_dir)
        + "\">..</a><br>"@ + entries_html(rel_dir, names) + page_footer()
}

/// Computes the part of `name` that image recognition looks at.
pub fn image_probe_str(name: &str) -> (r: String)
    ensures
        r@ == image_probe(name@),
{
    proof {
        lemma_last_idx_of(name@, '.');
    }
    let len = name.unicode_len();
    match find_last(name, '.') {
        Some(d) => String::from_str(str_slice(name, d + 1, len)),
        None => String::from_str(name),
    }
}

/// Decides whether `name` is rendered with a thumbnail-preview block.
pub fn is_image_name_exec(name: &str) -> (r: bool)
    ensures
        r == is_image_name(name@),
{
    let probe = image_probe_str(name);
    let e = probe.as_str();
    if e.unicode_len() != 3 {
        return false;
    }
    let c0 = e.get_char(0);
    let c1 = e.get_char(1);
    let c2 = e.get_char(2);
    ((c0 == 'j' || c0 == 'J') && (c1 == 'p' || c1 == 'P') && (c2 == 'g' || c2 == 'G')) || ((c0
        == 'p' || c0 == 'P') && (c1 == 'n' || c1 == 'N') && (c2 == 'g' || c2 == 'G')) || ((c0
        == 'g' || c0 == 'G') && (c1 == 'i' || c1 == 'I') && (c2 == 'f' || c2 == 'F')) || ((c0
        == 'i' || c0 == 'I') && (c1 == 'c' || c1 == 'C') && (c2 == 'o' || c2 == 'O'))
}

/// Computes the root-relative path of an entry.
pub fn entry_rel_str(rel_dir: &str, name: &str) -> (r: String)
    ensures
        r@ == entry_rel(rel_dir@, name@),
{
    let n = rel_dir.unicode_len();
    if n == 0 {
        String::from_str(name)
    } else if rel_dir.get_char(n - 1) == '/' {
        str_concat(rel_dir, name)
    } else {
        let mut s = String::from_str(rel_dir);
        s.append("/");
        s.append(name);
        s
    }
}

/// Renders one listing line.
pub fn entry_html(rel_dir: &str, name: &str) -> (r: String)
    ensures
        r@ == model_entry_html(rel_dir@, name@),
{
    let hidden = name.unicode_len() > 0 && name.get_char(0) == '.';
    if hidden {
        return String::new();
    }
    let link = entry_rel_str(rel_dir, name);
    if is_image_name_exec(name) {
        let mut s = String::from_str("<div class=\"thumbnail-container\"><img src=\"/");
        s.append(link.as_str());
        s.append(".thumbnail\" alt=\"preview\"></div><a href=\"/");
        s.append(link.as_str());
        s.append("\">");
        s.append(name);
        s.append("</a><br>");
        s
    } else {
        let mut s = String::from_str("<a href=\"/");
        s.append(link.as_str());
        s.append("\">");
        s.append(name);
        s.append("</a><br>");
        s
    }
}

/// Computes the up-link target for `rel`.
pub fn parent_str(rel: &str) -> (r: String)
    ensures
        r@ == parent_of(rel@),
{
    let len = rel.unicode_len();
    let tend: usize = if len > 0 && rel.get_char(len - 1) == '/' {
        len - 1
    } else {
        len
    };
    let t = str_slice(rel, 0, tend);
    proof {
        if tend < len {
            assert(t@ =~= rel@.drop_last());
        } else {
            assert(t@ =~= rel@);
        }
        lemma_last_idx_of(t@, '/');
    }
    match find_last(t, '/') {
        Some(i) => {
            if i >= 1 {
                String::from_str(str_slice(t, 0, i))
            } else {
                String::from_str("*")
            }
        },
        None => String::from_str("*"),
    }
}

/// Renders the listing page for `rel_dir` from the directory's entry names,
/// in one pass: sort, then emit shell, title, parent link, visible entries
/// and footer.
pub fn render_listing(rel_dir: &str, entries: &Vec<String>) -> (r: String)
    ensures
        r@ == model_listing_page(rel_dir@, sorted_names(entries.deep_view())),
{
    let sorted = sort_names(entries);
    let mut page = String::from_str(
        "<!DOCTYPE html><head><style>.thumbnail-container{width:200px;height:200px;background-color:grey;display:flex;align-items:center;justify-content:center;overflow:hidden}.thumbnail-container img{max-height:100%;max-width:100%}</style></head><body>",
    );
    page.append("<h1>Index: /");
    page.append(rel_dir);
    page.append("</h1><a href=\"/");
    let parent = parent_str(rel_dir);
    page.append(parent.as_str());
    page.append("\">..</a><br>");
    let ghost prefix = page@;
    let ghost names = sorted.deep_view();
    let mut i: usize = 0;
    proof {
        assert(page@ =~= prefix + entries_html(rel_dir@, names.take(0)));
    }
    while i < sorted.len()
        invariant
            names == sorted.deep_view(),
            i <= names.len(),
            sorted@.len() == names.len(),
            page@ == prefix + entries_html(rel_dir@, names.take(i as int)),
        decreases names.len() - i,
    {
        let line = entry_html(rel_dir, sorted[i].as_str());
        page.append(line.as_str());
        proof {
            assert(names.take(i + 1) =~= names.take(i as int).push(names[i as int]));
            lemma_entries_html_snoc(rel_dir@, names.take(i as int), names[i as int]);
            assert(page@ =~= prefix + entries_html(rel_dir@, names.take(i + 1)));
        }
        i = i + 1;
    }
    proof {
        assert(names.take(names.len() as int) =~= names);
    }
    page.append("</body><footer><p>- serben -</p></footer></html>");
    proof {
        assert(page@ =~= model_listing_page(rel_dir@, sorted_names(entries.deep_view())));
    }
    page
}

} // verus!
