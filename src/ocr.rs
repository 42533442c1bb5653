use vstd::prelude::*;

verus! {

/// A stretch of frames that shows a "media offline" card.
#[derive(Clone, Debug, PartialEq, Eq)]
pub struct OcrResult {
    pub frame_start: u64,
    pub frame_end: u64,
    pub text: Vec<char>,
    pub word_confidence: Vec<char>,
}

/// What text recognition and cut detection reported for one frame: the frame index of a
/// scene cut, the recognised text and the per-word confidences.
#[derive(Clone, Debug, PartialEq, Eq)]
pub struct OcrObservation {
    pub cut_frame: Option<u64>,
    pub text: Option<Vec<char>>,
    pub confidence: Option<Vec<char>>,
}

/// The characters that `char::is_whitespace` accepts (Unicode White_Space).
pub open spec fn whitespace(c: char) -> bool {
    ('\t' <= c <= '\r') || c == ' ' || c == '\u{85}' || c == '\u{a0}' || c == '\u{1680}'
        || ('\u{2000}' <= c <= '\u{200a}') || c == '\u{2028}' || c == '\u{2029}' || c == '\u{202f}'
        || c == '\u{205f}' || c == '\u{3000}'
}

pub open spec fn media_offline() -> Seq<char> {
    seq!['M', 'E', 'D', 'I', 'A', ' ', 'O', 'F', 'F', 'L', 'I', 'N', 'E']
}

pub open spec fn offline() -> Seq<char> {
    seq!['O', 'F', 'F', 'L', 'I', 'N', 'E']
}

pub open spec fn starts_with(s: Seq<char>, p: Seq<char>) -> bool {
    p.len() <= s.len() && s.take(p.len() as int) == p
}

/// The recognised text announces offline media.
pub open spec fn offline_text(s: Seq<char>) -> bool {
    starts_with(s, media_offline()) || starts_with(s, offline())
}

/// One character of the confidence text: a run of whitespace ends the current token with
/// `%`; a token after an earlier one starts with `,`. The state is the text so far and
/// whether a token is open.
pub open spec fn token_step(acc: (Seq<char>, bool), ch: char) -> (Seq<char>, bool) {
    if whitespace(ch) {
        if acc.1 {
            (acc.0.push('%'), false)
        } else {
            acc
        }
    } else if !acc.1 && acc.0.len() > 0 {
        (acc.0.push(',').push(ch), true)
    } else {
        (acc.0.push(ch), true)
    }
}

pub open spec fn token_run(s: Seq<char>) -> (Seq<char>, bool)
    decreases s.len(),
{
    if s.len() == 0 {
        (Seq::empty(), false)
    } else {
        token_step(token_run(s.drop_last()), s.last())
    }
}

/// Confidences as comma-separated percentages: each whitespace-separated token `t`
/// becomes `t%`, and the tokens are joined by commas.
pub open spec fn confidence_text(s: Seq<char>) -> Seq<char> {
    let (t, open) = token_run(s);
    if open {
        t.push('%')
    } else {
        t
    }
}

/// Whether `c` is whitespace.
pub fn is_whitespace(c: char) -> (r: bool)
    ensures
        r == whitespace(c),
{
    ('\t' <= c && c <= '\r') || c == ' ' || c == '\u{85}' || c == '\u{a0}' || c == '\u{1680}'
        || ('\u{2000}' <= c && c <= '\u{200a}') || c == '\u{2028}' || c == '\u{2029}' || c == '\u{202f}'
        || c == '\u{205f}' || c == '\u{3000}'
}

fn has_prefix(s: &Vec<char>, p: &Vec<char>) -> (r: bool)
    ensures
        r == starts_with(s@, p@),
{
    if p.len() > s.len() {
        return false;
    }
    let mut i: usize = 0;
    while i < p.len()
        invariant
            i <= p.len() <= s.len(),
            s@.take(i as int) == p@.take(i as int),
        decreases p.len() - i,
    {
        if s[i] != p[i] {
            assert(s@.take(p.len() as int)[i as int] != p@[i as int]);
            return false;
        }
        assert(s@.take(i as int + 1) == s@.take(i as int).push(s@[i as int]));
        assert(p@.take(i as int + 1) == p@.take(i as int).push(p@[i as int]));
        i += 1;
    }
    assert(p@.take(p.len() as int) == p@);
    true
}

/// Whether the recognised text starts with "MEDIA OFFLINE" or "OFFLINE".
pub fn is_offline_text(s: &Vec<char>) -> (r: bool)
    ensures
        r == offline_text(s@),
{
    let a: Vec<char> = vec!['M', 'E', 'D', 'I', 'A', ' ', 'O', 'F', 'F', 'L', 'I', 'N', 'E'];
    let b: Vec<char> = vec!['O', 'F', 'F', 'L', 'I', 'N', 'E'];
    assert(a@ == media_offline());
    assert(b@ == offline());
    has_prefix(s, &a) || has_prefix(s, &b)
}

/// Reformats whitespace-separated confidences into comma-separated percentages.
pub fn format_confidence(s: &Vec<char>) -> (r: Vec<char>)
    ensures
        r@ == confidence_text(s@),
{
    let mut t: Vec<char> = Vec::new();
    let mut open = false;
    let mut i: usize = 0;
    while i < s.len()
        invariant
            i <= s.len(),
            (t@, open) == token_run(s@.take(i as int)),
        decreases s.len() - i,
    {
        assert(s@.take(i as int + 1).drop_last() == s@.take(i as int));
        assert(s@.take(i as int + 1).last() == s@[i as int]);
        let ch = s[i];
        if is_whitespace(ch) {
            if open {
                t.push('%');
                open = false;
            }
        } else {
            if !open && t.len() > 0 {
                t.push(',');
            }
            t.push(ch);
            open = true;
        }
        i += 1;
    }
    assert(s@.take(s.len() as int) == s@);
    if open {
        t.push('%');
    }
    t
}

/// An offline stretch as plain values.
pub struct OcrSpan {
    pub frame_start: u64,
    pub frame_end: u64,
    pub text: Seq<char>,
    pub word_confidence: Seq<char>,
}

impl View for OcrResult {
    type V = OcrSpan;

    open spec fn view(&self) -> OcrSpan {
        OcrSpan {
            frame_start: self.frame_start,
            frame_end: self.frame_end,
            text: self.text@,
            word_confidence: self.word_confidence@,
        }
    }
}

/// Where the card detection stands.
pub enum CardPhase {
    /// No card.
    Idle,
    /// A card was seen (with its text and formatted confidences) and waits for a cut to
    /// anchor its stretch.
    Pending(Seq<char>, Seq<char>),
    /// A stretch is open and the card still shows.
    Showing,
    /// A stretch is open, the card no longer shows, and the next cut closes it.
    Ended,
}

/// The card detection's state, kept between frames.
#[derive(Debug)]
pub enum CardState {
    Idle,
    Pending(Vec<char>, Vec<char>),
    Showing,
    Ended,
}

impl View for CardState {
    type V = CardPhase;

    open spec fn view(&self) -> CardPhase {
        match self {
            CardState::Idle => CardPhase::Idle,
            CardState::Pending(t, w) => CardPhase::Pending(t@, w@),
            CardState::Showing => CardPhase::Showing,
            CardState::Ended => CardPhase::Ended,
        }
    }
}

/// The frame shows offline text.
pub open spec fn shows_card(o: OcrObservation) -> bool {
    o.text matches Some(t) && offline_text(t@)
}

/// The card this frame shows, with its formatted confidences, when it reports both.
pub open spec fn card_of(o: OcrObservation) -> Option<(Seq<char>, Seq<char>)> {
    match (o.text, o.confidence) {
        (Some(t), Some(w)) => if offline_text(t@) {
            Some((t@, confidence_text(w@)))
        } else {
            None
        },
        _ => None,
    }
}

/// A stretch anchored at the cut at frame `c`, open until `last_frame`.
pub open spec fn opened(c: u64, last_frame: u64, card: (Seq<char>, Seq<char>)) -> OcrSpan {
    OcrSpan { frame_start: c, frame_end: last_frame, text: card.0, word_confidence: card.1 }
}

/// The stretches with the last one ending on the frame before the cut at frame `c`.
pub open spec fn closed_at(found: Seq<OcrSpan>, c: u64) -> Seq<OcrSpan> {
    if found.len() == 0 {
        found
    } else {
        found.update(found.len() - 1, OcrSpan { frame_end: if c == 0 { 0 } else { (c - 1) as u64 }, ..found.last() })
    }
}

/// One frame of the card detection.
///
/// A card (offline text with its confidences) opens a stretch at the cut on its frame, or
/// else waits for the next cut and opens it there. While the card shows, cuts are passed
/// over; once it no longer shows, the next cut closes the stretch on the frame before it,
/// and a card shown on that very cut opens the next stretch there.
pub open spec fn ocr_step(st: (CardPhase, Seq<OcrSpan>), o: OcrObservation, last_frame: u64) -> (CardPhase, Seq<OcrSpan>) {
    match st.0 {
        CardPhase::Idle => match card_of(o) {
            Some(card) => match o.cut_frame {
                Some(c) => (CardPhase::Showing, st.1.push(opened(c, last_frame, card))),
                None => (CardPhase::Pending(card.0, card.1), st.1),
            },
            None => st,
        },
        CardPhase::Pending(t, w) => match o.cut_frame {
            Some(c) => (
                if shows_card(o) { CardPhase::Showing } else { CardPhase::Ended },
                st.1.push(opened(c, last_frame, (t, w))),
            ),
            None => st,
        },
        CardPhase::Showing => if shows_card(o) {
            st
        } else {
            match o.cut_frame {
                Some(c) => (CardPhase::Idle, closed_at(st.1, c)),
                None => (CardPhase::Ended, st.1),
            }
        },
        CardPhase::Ended => match o.cut_frame {
            Some(c) => match card_of(o) {
                Some(card) => (CardPhase::Showing, closed_at(st.1, c).push(opened(c, last_frame, card))),
                None => (CardPhase::Idle, closed_at(st.1, c)),
            },
            None => if shows_card(o) {
                (CardPhase::Showing, st.1)
            } else {
                st
            },
        },
    }
}

/// The state after all of `obs`.
pub open spec fn ocr_run(obs: Seq<OcrObservation>, last_frame: u64) -> (CardPhase, Seq<OcrSpan>)
    decreases obs.len(),
{
    if obs.len() == 0 {
        (CardPhase::Idle, Seq::empty())
    } else {
        ocr_step(ocr_run(obs.drop_last(), last_frame), obs.last(), last_frame)
    }
}

pub open spec fn spans(v: Seq<OcrResult>) -> Seq<OcrSpan> {
    v.map_values(|r: OcrResult| r@)
}

fn close_last(found: &mut Vec<OcrResult>, c: u64)
    ensures
        spans(final(found)@) == closed_at(spans(old(found)@), c),
{
    if found.len() > 0 {
        let ghost before = spans(found@);
        let mut last = found.pop().unwrap();
        last.frame_end = if c == 0 { 0 } else { c - 1 };
        found.push(last);
        assert(spans(found@) =~= closed_at(before, c));
    }
}

fn open_at(found: &mut Vec<OcrResult>, c: u64, last_frame: u64, text: Vec<char>, conf: Vec<char>)
    ensures
        spans(final(found)@) == spans(old(found)@).push(opened(c, last_frame, (text@, conf@))),
{
    let ghost before = spans(found@);
    found.push(OcrResult { frame_start: c, frame_end: last_frame, text, word_confidence: conf });
    assert(spans(found@) =~= before.push(opened(c, last_frame, (text@, conf@))));
}

/// The card this frame shows, with its formatted confidences.
fn card(o: &OcrObservation) -> (r: Option<(Vec<char>, Vec<char>)>)
    ensures
        match card_of(*o) {
            Some(c) => r matches Some(x) && x.0@ == c.0 && x.1@ == c.1,
            None => r is None,
        },
{
    match (&o.text, &o.confidence) {
        (Some(t), Some(w)) => if is_offline_text(t) {
            Some((t.clone(), format_confidence(w)))
        } else {
            None
        },
        _ => None,
    }
}

fn shows(o: &OcrObservation) -> (r: bool)
    ensures
        r == shows_card(*o),
{
    match &o.text {
        Some(t) => is_offline_text(t),
        None => false,
    }
}

/// Finds the stretches of a video stream that show a "media offline" card.
///
/// Text starting with "MEDIA OFFLINE" or "OFFLINE", with its confidences, marks a card.
/// Its stretch starts at the first cut at or after the frame where the card appears, and
/// ends on the frame before the first cut after the card stops showing; one never closed
/// runs to `last_frame`.
pub fn detect_ocr(obs: &Vec<OcrObservation>, last_frame: u64) -> (r: Vec<OcrResult>)
    ensures
        spans(r@) == ocr_run(obs@, last_frame).1,
{
    let mut state = CardState::Idle;
    let mut found: Vec<OcrResult> = Vec::new();
    let mut i: usize = 0;
    while i < obs.len()
        invariant
            i <= obs.len(),
            (state@, spans(found@)) == ocr_run(obs@.take(i as int), last_frame),
        decreases obs.len() - i,
    {
        assert(obs@.take(i as int + 1).drop_last() == obs@.take(i as int));
        assert(obs@.take(i as int + 1).last() == obs@[i as int]);
        let o = &obs[i];
        let next = match state {
            CardState::Idle => match card(o) {
                Some((t, w)) => match o.cut_frame {
                    Some(c) => {
                        open_at(&mut found, c, last_frame, t, w);
                        CardState::Showing
                    },
                    None => CardState::Pending(t, w),
                },
                None => CardState::Idle,
            },
            CardState::Pending(t, w) => match o.cut_frame {
                Some(c) => {
                    open_at(&mut found, c, last_frame, t, w);
                    if shows(o) { CardState::Showing } else { CardState::Ended }
                },
                None => CardState::Pending(t, w),
            },
            CardState::Showing => if shows(o) {
                CardState::Showing
            } else {
                match o.cut_frame {
                    Some(c) => {
                        close_last(&mut found, c);
                        CardState::Idle
                    },
                    None => CardState::Ended,
                }
            },
            CardState::Ended => match o.cut_frame {
                Some(c) => {
                    close_last(&mut found, c);
                    match card(o) {
                        Some((t, w)) => {
                            open_at(&mut found, c, last_frame, t, w);
                            CardState::Showing
                        },
                        None => CardState::Idle,
                    }
                },
                None => if shows(o) { CardState::Showing } else { CardState::Ended },
            },
        };
        state = next;
        i += 1;
    }
    assert(obs@.take(obs.len() as int) == obs@);
    found
}

/// The last frame of a stream: one before its frame count when known, else before the
/// number of entries analysed; 0 for an empty stream.
pub fn last_frame(stream_frames: Option<u64>, entries: u64) -> (r: u64)
    ensures
        r == match stream_frames {
            Some(n) => if n == 0 { 0 } else { (n - 1) as u64 },
            None => if entries == 0 { 0 } else { (entries - 1) as u64 },
        },
{
    let n = match stream_frames {
        Some(n) => n,
        None => entries,
    };
    if n == 0 { 0 } else { n - 1 }
}

} // verus!
