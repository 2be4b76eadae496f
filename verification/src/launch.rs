//! Handling of OS open-file launch signals.
//!
//! A signal carries zero or more URLs. Each URL that converts to a
//! local filesystem path is stored in the opened-file slot (last
//! writer wins) and announced to the UI layer with an `open-file`
//! event, for the case where the UI layer is already listening rather
//! than just starting. URLs that do not convert are silently skipped.

use vstd::prelude::*;

use crate::event::UiEvent;
use crate::relay::OpenedFileSlot;
use crate::relay::take_transition;

verus! {

/// The local filesystem path that a URL string converts to, if any.
pub uninterp spec fn local_path_of(url: Seq<char>) -> Option<Seq<char>>;

/// Relies on `url::Url::parse` and `url::Url::to_file_path`: parsing a
/// URL string and converting it to an absolute local path. The two are
/// taken together because the parsed URL in between is opaque here.
/// For a fixed target platform the outcome is a function of the URL
/// string alone; `to_file_path` returns `Err` when the URL's host is
/// neither empty nor `localhost`, or when the percent-decoded path
/// holds a NUL byte, and paths that are not valid UTF-8 are skipped.
#[verifier::external_body]
fn url_to_local_path(url: &str) -> (r: Option<String>)
    ensures
        r.deep_view() == local_path_of(url@),
{
    match url::Url::parse(url) {
        Ok(u) => match u.to_file_path() {
            Ok(p) => p.to_str().map(|s| s.to_owned()),
            Err(()) => None,
        },
        Err(_) => None,
    }
}

/// The paths, in order, of those URLs of one signal that convert to a
/// local path.
pub open spec fn convertible_paths(urls: Seq<Seq<char>>) -> Seq<Seq<char>>
    decreases urls.len(),
{
    if urls.len() == 0 {
        Seq::empty()
    } else {
        let rest = convertible_paths(urls.drop_last());
        match local_path_of(urls.last()) {
            Some(p) => rest.push(p),
            None => rest,
        }
    }
}

/// What one signal leaves in the slot: the last convertible path of
/// the signal, or the prior contents if it carried none.
pub open spec fn signal_effect(prior: Option<Seq<char>>, urls: Seq<Seq<char>>) -> Option<
    Seq<char>,
> {
    let c = convertible_paths(urls);
    if c.len() == 0 {
        prior
    } else {
        Some(c.last())
    }
}

/// Process one OS open-file signal: store each convertible path in the
/// slot (so the last one wins) and return one `open-file` event per
/// convertible path, in signal order, for the UI layer.
pub fn handle_open_signal(slot: &mut OpenedFileSlot, urls: &Vec<String>) -> (emits: Vec<UiEvent>)
    ensures
        final(slot)@ == signal_effect(old(slot)@, urls.deep_view()),
        emits@.len() == convertible_paths(urls.deep_view()).len(),
        forall|i: int|
            #![trigger emits@[i]]
            0 <= i < emits@.len() ==> emits@[i].name@ == "open-file"@ && emits@[i].payload@
                == convertible_paths(urls.deep_view())[i],
{
    let ghost uv = urls.deep_view();
    let mut emits: Vec<UiEvent> = Vec::new();
    let mut k: usize = 0;
    while k < urls.len()
        invariant
            k <= urls.len(),
            uv == urls.deep_view(),
            uv.len() == urls@.len(),
            slot@ == signal_effect(old(slot)@, uv.take(k as int)),
            emits@.len() == convertible_paths(uv.take(k as int)).len(),
            forall|i: int|
                #![trigger emits@[i]]
                0 <= i < emits@.len() ==> emits@[i].name@ == "open-file"@ && emits@[i].payload@
                    == convertible_paths(uv.take(k as int))[i],
        decreases urls.len() - k,
    {
        proof {
            assert(uv.take(k + 1).drop_last() =~= uv.take(k as int));
            assert(uv.take(k + 1).last() == uv[k as int]);
            assert(uv[k as int] == urls@[k as int]@);
        }
        let url = &urls[k];
        let r = url_to_local_path(url.as_str());
        proof {
            assert(r.deep_view() == local_path_of(uv[k as int]));
        }
        match r {
            Some(p) => {
                proof {
                    assert(local_path_of(uv[k as int]) == Some(p@));
                    assert(convertible_paths(uv.take(k + 1)) == convertible_paths(
                        uv.take(k as int),
                    ).push(p@));
                }
                slot.store(p.clone());
                emits.push(UiEvent { name: "open-file".to_owned(), payload: p });
            },
            None => {
                proof {
                    assert(convertible_paths(uv.take(k + 1)) == convertible_paths(
                        uv.take(k as int),
                    ));
                }
            },
        }
        k += 1;
    }
    proof {
        assert(uv.take(urls@.len() as int) =~= uv);
    }
    emits
}

/// How the slot ends up after a whole sequence of signals, each
/// applied in turn.
pub open spec fn slot_after_signals(
    prior: Option<Seq<char>>,
    signals: Seq<Seq<Seq<char>>>,
) -> Option<Seq<char>>
    decreases signals.len(),
{
    if signals.len() == 0 {
        prior
    } else {
        signal_effect(slot_after_signals(prior, signals.drop_last()), signals.last())
    }
}

/// The path of the last convertible URL over a whole sequence of
/// signals, or nothing if no signal carried one.
pub open spec fn last_convertible(signals: Seq<Seq<Seq<char>>>) -> Option<Seq<char>>
    decreases signals.len(),
{
    if signals.len() == 0 {
        None
    } else if convertible_paths(signals.last()).len() > 0 {
        Some(convertible_paths(signals.last()).last())
    } else {
        last_convertible(signals.drop_last())
    }
}

/// A slot that starts empty and sees a sequence of signals holds the
/// path from the last signal that carried a convertible one, or
/// nothing if none did.
pub proof fn lemma_slot_tracks_last_convertible(signals: Seq<Seq<Seq<char>>>)
    ensures
        slot_after_signals(None, signals) == last_convertible(signals),
    decreases signals.len(),
{
    if signals.len() > 0 {
        lemma_slot_tracks_last_convertible(signals.drop_last());
    }
}

/// After any sequence of open-file signals on an initially empty slot,
/// a single read returns the path from the last signal received that
/// carried a convertible path — or nothing, if none occurred — and
/// leaves the slot empty.
pub proof fn lemma_read_returns_last_signal(
    signals: Seq<Seq<Seq<char>>>,
    r: Option<Seq<char>>,
    post: Option<Seq<char>>,
)
    requires
        take_transition(slot_after_signals(None, signals), r, post),
    ensures
        r == last_convertible(signals),
        post is None,
{
    lemma_slot_tracks_last_convertible(signals);
}

} // verus!
