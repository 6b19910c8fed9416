//! Translation links.
//!
//! An article may exist in several locales. The host hands every page render
//! the set of sibling translations it knows of (locale identifier plus the
//! path of that locale's rendered page); this module projects that set into
//! display links, marking the entry for the article's own locale as selected.

use vstd::prelude::*;

verus! {

/// A sibling translation of an article, as the host provides it.
pub struct TranslationRef {
    /// The locale identifier, e.g. `"en"`.
    pub locale: String,
    /// The path of that locale's rendered page.
    pub href: String,
}

/// Spec-level image of a `TranslationRef`.
pub struct TranslationRefView {
    pub locale: Seq<char>,
    pub href: Seq<char>,
}

impl View for TranslationRef {
    type V = TranslationRefView;

    open spec fn view(&self) -> TranslationRefView {
        TranslationRefView { locale: self.locale@, href: self.href@ }
    }
}

impl DeepView for TranslationRef {
    type V = TranslationRefView;

    open spec fn deep_view(&self) -> TranslationRefView {
        self@
    }
}

/// A display link to one locale's rendering of the current article.
pub struct TranslationLink {
    /// The locale identifier.
    pub locale: String,
    /// The path of that locale's rendered page.
    pub href: String,
    /// True iff this entry is the article's own locale.
    pub selected: bool,
}

/// Spec-level image of a `TranslationLink`.
pub struct TranslationLinkView {
    pub locale: Seq<char>,
    pub href: Seq<char>,
    pub selected: bool,
}

impl View for TranslationLink {
    type V = TranslationLinkView;

    open spec fn view(&self) -> TranslationLinkView {
        TranslationLinkView { locale: self.locale@, href: self.href@, selected: self.selected }
    }
}

impl DeepView for TranslationLink {
    type V = TranslationLinkView;

    open spec fn deep_view(&self) -> TranslationLinkView {
        self@
    }
}

/// The link list a whole translation set resolves to, for an article in
/// locale `loc`.
pub open spec fn spec_translation_links(ts: Seq<TranslationRefView>, loc: Seq<char>) -> Seq<
    TranslationLinkView,
> {
    Seq::new(ts.len(), |i: int| spec_translation_link(ts[i], loc))
}

/// The link a single translation resolves to, for an article in locale `loc`.
pub open spec fn spec_translation_link(t: TranslationRefView, loc: Seq<char>) -> TranslationLinkView {
    TranslationLinkView { locale: t.locale, href: t.href, selected: t.locale == loc }
}

/// `links` is the resolution of the translation set `ts` for an article in
/// locale `loc`: same order and cardinality, each entry selected exactly when
/// its locale is `loc`.
pub open spec fn links_resolved(
    ts: Seq<TranslationRef>,
    loc: Seq<char>,
    links: Seq<TranslationLink>,
) -> bool {
    &&& links.len() == ts.len()
    &&& forall|i: int|
        0 <= i < ts.len() ==> #[trigger] links[i]@ == spec_translation_link(ts[i]@, loc)
}

/// Projects the host-provided translation set into display links, in order,
/// marking the entry whose locale equals the article's own as selected.
pub fn translation_links(translations: &Vec<TranslationRef>, locale: &String) -> (r: Vec<
    TranslationLink,
>)
    ensures
        links_resolved(translations@, locale@, r@),
{
    let mut r: Vec<TranslationLink> = Vec::new();
    let mut i: usize = 0;
    while i < translations.len()
        invariant
            i <= translations@.len(),
            r@.len() == i,
            forall|j: int|
                0 <= j < i ==> #[trigger] r@[j]@ == spec_translation_link(
                    translations@[j]@,
                    locale@,
                ),
        decreases translations@.len() - i,
    {
        let t = &translations[i];
        let selected = t.locale == *locale;
        r.push(TranslationLink { locale: t.locale.clone(), href: t.href.clone(), selected });
        i = i + 1;
    }
    r
}

/// Whether translation controls should be rendered at all: a list with at most
/// one entry conveys no choice and is suppressed.
pub fn has_translations(links: &Vec<TranslationLink>) -> (b: bool)
    ensures
        b == (links@.len() > 1),
{
    links.len() > 1
}

/// How many entries of the translation set `ts` carry the locale `loc`.
pub open spec fn count_locale(ts: Seq<TranslationRef>, loc: Seq<char>) -> nat
    decreases ts.len(),
{
    if ts.len() == 0 {
        0
    } else {
        (if ts.last()@.locale == loc {
            1nat
        } else {
            0nat
        }) + count_locale(ts.drop_last(), loc)
    }
}

proof fn lemma_count_zero(ts: Seq<TranslationRef>, loc: Seq<char>)
    requires
        count_locale(ts, loc) == 0,
    ensures
        forall|i: int| 0 <= i < ts.len() ==> (#[trigger] ts[i]@).locale != loc,
    decreases ts.len(),
{
    if ts.len() > 0 {
        lemma_count_zero(ts.drop_last(), loc);
        assert forall|i: int| 0 <= i < ts.len() implies (#[trigger] ts[i]@).locale != loc by {
            if i < ts.len() - 1 {
                assert(ts.drop_last()[i] == ts[i]);
            }
        }
    }
}

proof fn lemma_count_one_witness(ts: Seq<TranslationRef>, loc: Seq<char>) -> (w: int)
    requires
        count_locale(ts, loc) == 1,
    ensures
        0 <= w < ts.len(),
        ts[w]@.locale == loc,
        forall|j: int| 0 <= j < ts.len() && j != w ==> (#[trigger] ts[j]@).locale != loc,
    decreases ts.len(),
{
    if ts.last()@.locale == loc {
        lemma_count_zero(ts.drop_last(), loc);
        assert forall|j: int| 0 <= j < ts.len() && j != ts.len() - 1 implies (
        #[trigger] ts[j]@).locale != loc by {
            assert(ts.drop_last()[j] == ts[j]);
        }
        ts.len() - 1
    } else {
        let w = lemma_count_one_witness(ts.drop_last(), loc);
        assert(ts.drop_last()[w] == ts[w]);
        assert forall|j: int| 0 <= j < ts.len() && j != w implies (#[trigger] ts[j]@).locale
            != loc by {
            if j < ts.len() - 1 {
                assert(ts.drop_last()[j] == ts[j]);
            }
        }
        w
    }
}

/// When the article's own locale occurs exactly once in its translation set,
/// exactly one resolved link is selected, and it is the one whose locale is
/// the article's.
pub proof fn lemma_selected_link_unique(
    ts: Seq<TranslationRef>,
    loc: Seq<char>,
    links: Seq<TranslationLink>,
)
    requires
        links_resolved(ts, loc, links),
        count_locale(ts, loc) == 1,
    ensures
        exists|i: int|
            0 <= i < links.len() && (#[trigger] links[i]@).selected && links[i]@.locale == loc
                && (forall|j: int|
                0 <= j < links.len() && j != i ==> !(#[trigger] links[j]@).selected),
{
    let w = lemma_count_one_witness(ts, loc);
    assert(links[w]@ == spec_translation_link(ts[w]@, loc));
    assert(0 <= w < links.len() && links[w]@.selected && links[w]@.locale == loc && (forall|j: int|
        0 <= j < links.len() && j != w ==> !(#[trigger] links[j]@).selected));
}

/// An article whose translation set has at most one entry gets no translation
/// controls: the resolved link list is never longer than the set it came from.
pub proof fn lemma_single_locale_suppressed(
    ts: Seq<TranslationRef>,
    loc: Seq<char>,
    links: Seq<TranslationLink>,
)
    requires
        links_resolved(ts, loc, links),
        ts.len() <= 1,
    ensures
        !(links.len() > 1),
{
}

} // verus!
