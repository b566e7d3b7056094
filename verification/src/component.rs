//! What every piece of a page has in common: it renders to HTML.
use vstd::prelude::*;
use vstd::string::*;

use crate::text::{contains_text, lemma_contains_extend, lemma_contains_self, occurs_in_order};

verus! {

/// A piece of a page. `html` is the markup that `to_html` writes, where
/// `renders` holds: a piece that lacks what its markup shows cannot render.
pub trait Component {
    spec fn html(&self) -> Seq<char>;

    spec fn renders(&self) -> bool;

    fn to_html(&self) -> (r: String)
        requires
            self.renders(),
        ensures
            r@ == self.html(),
    ;
}

/// Every component of a list can render.
pub open spec fn all_render<C: Component>(s: Seq<C>) -> bool {
    forall|i: int| 0 <= i < s.len() ==> (#[trigger] s[i]).renders()
}

/// An optional component can render where there is one.
pub open spec fn optional_renders<C: Component>(c: Option<C>) -> bool {
    match c {
        Some(b) => b.renders(),
        None => true,
    }
}

/// A piece of markup that is already written, such as one rendered elsewhere.
pub struct Html {
    text: String,
}

impl Html {
    pub closed spec fn text_view(&self) -> Seq<char> {
        self.text@
    }

    pub fn new(text: String) -> (r: Html)
        ensures
            r.text_view() == text@,
    {
        Html { text }
    }
}

impl Component for Html {
    open spec fn html(&self) -> Seq<char> {
        self.text_view()
    }

    open spec fn renders(&self) -> bool {
        true
    }

    fn to_html(&self) -> (r: String) {
        self.text.clone()
    }
}

/// The markup of a list of components, one after the other.
pub open spec fn concat_html<C: Component>(s: Seq<C>) -> Seq<char>
    decreases s.len(),
{
    if s.len() == 0 {
        Seq::empty()
    } else {
        concat_html(s.drop_last()) + s.last().html()
    }
}

/// The markup of a list holds the markup of each of its components.
pub proof fn lemma_concat_holds_each<C: Component>(s: Seq<C>, i: int)
    requires
        0 <= i < s.len(),
    ensures
        contains_text(concat_html(s), s[i].html()),
    decreases s.len(),
{
    let e = Seq::<char>::empty();
    if i == s.len() - 1 {
        lemma_contains_self(s.last().html());
        lemma_contains_extend(s.last().html(), s[i].html(), concat_html(s.drop_last()), e);
        assert(concat_html(s.drop_last()) + s.last().html() + e =~= concat_html(s));
    } else {
        lemma_concat_holds_each(s.drop_last(), i);
        assert(s.drop_last()[i] == s[i]);
        lemma_contains_extend(concat_html(s.drop_last()), s[i].html(), e, s.last().html());
        assert(e + concat_html(s.drop_last()) + s.last().html() =~= concat_html(s));
    }
}

/// The markup of a list is that of its first `k` components followed by that
/// of the rest.
pub proof fn lemma_concat_split<C: Component>(s: Seq<C>, k: int)
    requires
        0 <= k <= s.len(),
    ensures
        concat_html(s) == concat_html(s.subrange(0, k)) + concat_html(s.subrange(k, s.len() as int)),
    decreases s.len(),
{
    if k == s.len() {
        assert(s.subrange(0, k) =~= s);
        assert(s.subrange(k, s.len() as int) =~= Seq::<C>::empty());
        assert(concat_html(s) + Seq::<char>::empty() =~= concat_html(s));
    } else {
        let d = s.drop_last();
        lemma_concat_split(d, k);
        assert(d.subrange(0, k) =~= s.subrange(0, k));
        let t = s.subrange(k, s.len() as int);
        assert(t.drop_last() =~= d.subrange(k, d.len() as int));
        assert(t.last() == s.last());
        assert(concat_html(s) =~= concat_html(s.subrange(0, k)) + concat_html(t));
    }
}

/// The markup of a list around its component `i`.
pub proof fn lemma_concat_around<C: Component>(s: Seq<C>, i: int)
    requires
        0 <= i < s.len(),
    ensures
        concat_html(s) == concat_html(s.subrange(0, i)) + s[i].html() + concat_html(
            s.subrange(i + 1, s.len() as int),
        ),
{
    lemma_concat_split(s, i);
    let u = s.subrange(i, s.len() as int);
    lemma_concat_split(u, 1);
    let one = u.subrange(0, 1);
    assert(one.drop_last() =~= Seq::<C>::empty());
    assert(one.last() == s[i]);
    assert(concat_html(one.drop_last()) =~= Seq::<char>::empty());
    assert(concat_html(one) == concat_html(one.drop_last()) + one.last().html());
    assert(concat_html(one) =~= s[i].html());
    assert(u.subrange(1, u.len() as int) =~= s.subrange(i + 1, s.len() as int));
    assert(concat_html(s) =~= concat_html(s.subrange(0, i)) + s[i].html() + concat_html(
        s.subrange(i + 1, s.len() as int),
    ));
}

/// In the markup of a list, the markup of a component comes before that of
/// every later component.
pub proof fn lemma_concat_in_order<C: Component>(s: Seq<C>, i: int, j: int)
    requires
        0 <= i < j < s.len(),
    ensures
        occurs_in_order(concat_html(s), s[i].html(), s[j].html()),
{
    lemma_concat_around(s, i);
    let t = s.subrange(i + 1, s.len() as int);
    lemma_concat_around(t, j - i - 1);
    assert(t[j - i - 1] == s[j]);
    let a = concat_html(s.subrange(0, i));
    let b = concat_html(t.subrange(0, j - i - 1));
    let c = concat_html(t.subrange(j - i, t.len() as int));
    assert(a + s[i].html() + b + s[j].html() + c =~= concat_html(s));
}

/// Renders each component of `items` in turn and joins the markup.
pub fn render_all<C: Component>(items: &[C]) -> (r: String)
    requires
        all_render(items@),
    ensures
        r@ == concat_html(items@),
{
    let mut out = String::new();
    let mut i: usize = 0;
    while i < items.len()
        invariant
            i <= items@.len(),
            all_render(items@),
            out@ == concat_html(items@.subrange(0, i as int)),
        decreases items@.len() - i,
    {
        let h = items[i].to_html();
        out.append(h.as_str());
        assert(items@.subrange(0, i + 1).drop_last() =~= items@.subrange(0, i as int));
        i = i + 1;
    }
    assert(items@.subrange(0, i as int) =~= items@);
    out
}

/// The markup of an optional component: nothing where there is none.
pub open spec fn optional_html<C: Component>(c: Option<C>) -> Seq<char> {
    match c {
        Some(b) => b.html(),
        None => Seq::empty(),
    }
}

/// Renders an optional component, writing nothing where there is none.
pub fn render_optional<C: Component>(c: &Option<C>) -> (r: String)
    requires
        optional_renders(*c),
    ensures
        r@ == optional_html(*c),
{
    match c {
        Some(b) => b.to_html(),
        None => String::new(),
    }
}

} // verus!
