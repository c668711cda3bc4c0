//! The lines of the lyrics overlay and which of them are highlighted.

use vstd::prelude::*;

use crate::text::{trim, trimmed};

verus! {

/// Whether a lyrics line holds nothing but white space.
pub open spec fn is_blank(text: Seq<char>) -> bool {
    trim(text).len() == 0
}

/// The trimmed texts of the lines that are not blank, in order.
pub open spec fn line_texts(lyrics: Seq<(u64, String)>) -> Seq<Seq<char>>
    decreases lyrics.len(),
{
    if lyrics.len() == 0 {
        Seq::empty()
    } else {
        let prev = line_texts(lyrics.drop_last());
        let t = trim(lyrics.last().1@);
        if t.len() == 0 {
            prev
        } else {
            prev.push(t)
        }
    }
}

/// The text shown when a song has no lyrics.
pub open spec fn no_lyrics_text() -> Seq<char> {
    "暂无歌词"@
}

/// The labels of the overlay: the placeholder when there are no lyrics,
/// else one label per line that is not blank.
pub open spec fn overlay_texts(lyrics: Seq<(u64, String)>) -> Seq<Seq<char>> {
    if lyrics.len() == 0 {
        seq![no_lyrics_text()]
    } else {
        line_texts(lyrics)
    }
}

/// The label that shows line `i`: the number of lines before it that are
/// not blank.
pub open spec fn label_index(lyrics: Seq<(u64, String)>, i: int) -> int {
    line_texts(lyrics.take(i)).len() as int
}

/// The labels to highlight, in order, for the lines from `i` to `end`
/// (both included): those of the lines that are not blank, as far as there
/// are that many labels.
pub open spec fn active_from(lyrics: Seq<(u64, String)>, n_labels: int, i: int, end: int) -> Seq<int>
    decreases lyrics.len() - i,
{
    if i < 0 || i > end || i >= lyrics.len() {
        Seq::empty()
    } else {
        let rest = active_from(lyrics, n_labels, i + 1, end);
        if !is_blank(lyrics[i].1@) && label_index(lyrics, i) < n_labels {
            seq![label_index(lyrics, i)] + rest
        } else {
            rest
        }
    }
}

/// Each lyrics line gives at most one label.
pub proof fn lemma_line_texts_len(lyrics: Seq<(u64, String)>)
    ensures
        line_texts(lyrics).len() <= lyrics.len(),
    decreases lyrics.len(),
{
    if lyrics.len() > 0 {
        lemma_line_texts_len(lyrics.drop_last());
    }
}

/// Appending a line adds its label, unless it is blank.
pub proof fn lemma_line_texts_step(lyrics: Seq<(u64, String)>, i: int)
    requires
        0 <= i < lyrics.len(),
    ensures
        line_texts(lyrics.take(i + 1)) == (if is_blank(lyrics[i].1@) {
            line_texts(lyrics.take(i))
        } else {
            line_texts(lyrics.take(i)).push(trim(lyrics[i].1@))
        }),
{
    assert(lyrics.take(i + 1).drop_last() == lyrics.take(i));
    assert(lyrics.take(i + 1).last() == lyrics[i]);
}

/// The texts of the overlay labels for these lyrics.
pub fn overlay_lines(lyrics: &Vec<(u64, String)>) -> (r: Vec<String>)
    ensures
        r@.map_values(|s: String| s@) == overlay_texts(lyrics@),
{
    let mut labels: Vec<String> = Vec::new();
    if lyrics.len() == 0 {
        let t = "暂无歌词";
        labels.push(String::from_str(t));
        proof {
            assert(labels@.map_values(|s: String| s@) =~= seq![no_lyrics_text()]);
        }
        return labels;
    }
    let n = lyrics.len();
    for i in 0..n
        invariant
            n == lyrics@.len(),
            labels@.map_values(|s: String| s@) == line_texts(lyrics@.take(i as int)),
    {
        let t = trimmed(lyrics[i].1.as_str());
        proof {
            lemma_line_texts_step(lyrics@, i as int);
        }
        if !t.as_str().is_empty() {
            let ghost before = labels@;
            labels.push(t);
            proof {
                assert(labels@.map_values(|s: String| s@) =~= before.map_values(|s: String| s@).push(t@));
            }
        }
    }
    proof {
        assert(lyrics@.take(n as int) == lyrics@);
    }
    labels
}

/// For each lyrics line, the label that shows it, or `usize::MAX` for a
/// blank line, which has none.
pub fn lyric_to_label(lyrics: &Vec<(u64, String)>) -> (r: Vec<usize>)
    ensures
        r@.len() == lyrics@.len(),
        forall|i: int| 0 <= i < lyrics@.len() ==> (#[trigger] r@[i] as int) == (if is_blank(lyrics@[i].1@) {
            usize::MAX as int
        } else {
            label_index(lyrics@, i)
        }),
{
    let mut map: Vec<usize> = Vec::new();
    let mut label_idx: usize = 0;
    let n = lyrics.len();
    for i in 0..n
        invariant
            n == lyrics@.len(),
            map@.len() == i,
            label_idx as int == label_index(lyrics@, i as int),
            forall|j: int| 0 <= j < i ==> (#[trigger] map@[j] as int) == (if is_blank(lyrics@[j].1@) {
                usize::MAX as int
            } else {
                label_index(lyrics@, j)
            }),
    {
        let t = trimmed(lyrics[i].1.as_str());
        proof {
            lemma_line_texts_step(lyrics@, i as int);
            lemma_line_texts_len(lyrics@.take(i as int));
        }
        if t.as_str().is_empty() {
            map.push(usize::MAX);
        } else {
            map.push(label_idx);
            label_idx = label_idx + 1;
        }
    }
    map
}

/// The labels to highlight when the lines from `start` to `end` (both
/// included) are playing and the overlay has `n_labels` labels.
pub fn highlight_labels(lyrics: &Vec<(u64, String)>, n_labels: usize, start: usize, end: usize) -> (r: Vec<usize>)
    ensures
        r@.map_values(|x: usize| x as int) == active_from(lyrics@, n_labels as int, start as int, end as int),
{
    let map = lyric_to_label(lyrics);
    let mut active: Vec<usize> = Vec::new();
    let n = lyrics.len();
    if start > end || start >= n {
        return active;
    }
    let mut i: usize = start;
    while i < n && i <= end
        invariant
            n == lyrics@.len(),
            map@.len() == n,
            forall|j: int| 0 <= j < n ==> (#[trigger] map@[j] as int) == (if is_blank(lyrics@[j].1@) {
                usize::MAX as int
            } else {
                label_index(lyrics@, j)
            }),
            start <= i,
            active@.map_values(|x: usize| x as int) + active_from(lyrics@, n_labels as int, i as int, end as int)
                == active_from(lyrics@, n_labels as int, start as int, end as int),
        decreases n - i,
    {
        let li = map[i];
        let ghost before = active@;
        proof {
            lemma_line_texts_len(lyrics@.take(i as int));
        }
        if li < n_labels {
            active.push(li);
            proof {
                assert(active@.map_values(|x: usize| x as int) =~= before.map_values(|x: usize| x as int).push(li as int));
            }
        }
        proof {
            let rest = active_from(lyrics@, n_labels as int, i + 1, end as int);
            if li < n_labels {
                assert(before.map_values(|x: usize| x as int).push(li as int) + rest
                    =~= before.map_values(|x: usize| x as int) + (seq![li as int] + rest));
            }
        }
        i = i + 1;
    }
    proof {
        assert(active_from(lyrics@, n_labels as int, i as int, end as int) =~= Seq::<int>::empty());
        assert(active@.map_values(|x: usize| x as int) + Seq::<int>::empty() =~= active@.map_values(|x: usize| x as int));
    }
    active
}

} // verus!
