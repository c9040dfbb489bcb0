use vstd::prelude::*;

use crate::text::{opt_view, opts_view};

verus! {

/// The strings among `items`, in their order; the other items are dropped.
pub open spec fn present(items: Seq<Option<Seq<char>>>) -> Seq<Seq<char>>
    decreases items.len(),
{
    if items.len() == 0 {
        seq![]
    } else {
        let before = present(items.drop_last());
        match items.last() {
            Some(s) => before.push(s),
            None => before,
        }
    }
}

/// The language hints of a request, read from its optional `languages`
/// argument.
///
/// `items` is `None` when the argument is absent or is not an array; otherwise
/// it holds one entry per array element, `Some` for a string and `None` for
/// anything else. The hints are the strings, in order; everything else is
/// ignored, and no argument means no hints.
///
/// Said directly of the items: the hints are the items filtered to the
/// strings and unwrapped, in order.
pub fn language_hints(items: Option<Vec<Option<String>>>) -> (hints: Vec<String>)
    ensures
        hints.deep_view() == match items {
            Some(v) => present(opts_view(v@)),
            None => Seq::<Seq<char>>::empty(),
        },
        items is None ==> hints@.len() == 0,
        items matches Some(v) ==> hints.deep_view() == opts_view(v@).filter_map(
            |o: Option<Seq<char>>| o,
        ),
{
    let mut hints: Vec<String> = Vec::new();
    match items {
        None => {
            assert(hints.deep_view() =~= Seq::<Seq<char>>::empty());
        },
        Some(v) => {
            let ghost all = opts_view(v@);
            let n = v.len();
            let mut i: usize = 0;
            while i < n
                invariant
                    n == v@.len(),
                    all == opts_view(v@),
                    i <= n,
                    hints.deep_view() == present(all.take(i as int)),
                decreases n - i,
            {
                assert(all.take(i + 1).drop_last() =~= all.take(i as int));
                assert(all.take(i + 1).last() == opt_view(v@[i as int]));
                let ghost prev = hints.deep_view();
                match &v[i] {
                    Some(s) => {
                        hints.push(s.clone());
                        assert(hints.deep_view() =~= prev.push(s@));
                    },
                    None => {},
                }
                i = i + 1;
            }
            assert(all.take(n as int) =~= all);
            proof {
                lemma_present_is_filter_map(all, |o: Option<Seq<char>>| o);
            }
        },
    }
    hints
}

/// The strings among the items are the items filtered to the strings and
/// unwrapped, in order.
pub proof fn lemma_present_is_filter_map(
    items: Seq<Option<Seq<char>>>,
    unwrap: spec_fn(Option<Seq<char>>) -> Option<Seq<char>>,
)
    requires
        forall|o: Option<Seq<char>>| #[trigger] unwrap(o) == o,
    ensures
        present(items) == items.filter_map(unwrap),
    decreases items.len(),
{
    if items.len() > 0 {
        lemma_present_is_filter_map(items.drop_last(), unwrap);
        assert(unwrap(items.last()) == items.last());
        match items.last() {
            Some(s) => {
                assert(present(items) =~= items.filter_map(unwrap));
            },
            None => {},
        }
    }
}

/// A request's hints are empty, so that the script is detected automatically,
/// exactly when none of the items of its `languages` argument is a string;
/// and every hint is one of those strings.
pub proof fn lemma_present(items: Seq<Option<Seq<char>>>)
    ensures
        present(items).len() == 0 <==> forall|i: int| 0 <= i < items.len() ==> #[trigger] items[i] is None,
        forall|k: int|
            0 <= k < present(items).len() ==> exists|i: int|
                0 <= i < items.len() && #[trigger] items[i] == Some(#[trigger] present(items)[k]),
    decreases items.len(),
{
    if items.len() > 0 {
        let rest = items.drop_last();
        lemma_present(rest);
        assert forall|i: int| 0 <= i < rest.len() implies #[trigger] rest[i] == items[i] by {}
        if present(items).len() == 0 {
            assert forall|i: int| 0 <= i < items.len() implies #[trigger] items[i] is None by {
                if i < rest.len() {
                    assert(rest[i] == items[i]);
                }
            }
        }
        assert forall|k: int| 0 <= k < present(items).len() implies exists|i: int|
            0 <= i < items.len() && #[trigger] items[i] == Some(#[trigger] present(items)[k]) by {
            if k < present(rest).len() {
                let i = choose|i: int| 0 <= i < rest.len() && rest[i] == Some(present(rest)[k]);
                assert(items[i] == Some(present(items)[k]));
            } else {
                assert(items[items.len() - 1] == Some(present(items)[k]));
            }
        }
    }
}

/// How a recognition treats languages.
pub enum LanguageMode {
    /// No hints were given: the recognizer detects the script on its own.
    AutoDetect,
    /// Recognition is restricted to exactly these languages.
    Restrict(Vec<String>),
}

/// The language mode for the given BCP-47 hints: automatic detection when
/// there are none, otherwise a restriction to exactly the hints, in order.
pub fn language_mode(languages: &[&str]) -> (mode: LanguageMode)
    ensures
        languages@.len() == 0 <==> mode is AutoDetect,
        mode matches LanguageMode::Restrict(v) ==> v.deep_view() == languages.deep_view(),
{
    if languages.len() == 0 {
        return LanguageMode::AutoDetect;
    }
    let mut v: Vec<String> = Vec::new();
    let n = languages.len();
    let mut i: usize = 0;
    while i < n
        invariant
            n == languages@.len(),
            i <= n,
            v.deep_view() == languages.deep_view().take(i as int),
        decreases n - i,
    {
        let ghost prev = v.deep_view();
        v.push(String::from_str(languages[i]));
        assert(languages.deep_view().take(i + 1) =~= prev.push(languages@[i as int]@));
        i = i + 1;
    }
    assert(languages.deep_view().take(n as int) =~= languages.deep_view());
    LanguageMode::Restrict(v)
}

} // verus!
