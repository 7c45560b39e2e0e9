//! Timed lyrics, fixed up for display.
//!
//! The lyrics provider hands over lines that carry only a start time; each
//! line's end is backfilled from the start of the line after it, and the
//! last line runs to the end of the track.

use vstd::prelude::*;

verus! {

/// One line of lyrics and the interval, in milliseconds, it is shown for.
#[derive(Debug)]
pub struct LyricLine {
    pub start: usize,
    pub end: usize,
    pub data: String,
}

/// A track's lyrics; `synced` says whether the lines carry usable times.
#[derive(Debug)]
pub struct SpotifyLyrics {
    pub lyrics: Vec<LyricLine>,
    pub synced: bool,
}

impl Default for SpotifyLyrics {
    /// No lines, and nothing to synchronise to.
    fn default() -> (r: Self)
        ensures
            r.lyrics@ == Seq::<LyricLine>::empty(),
            !r.synced,
    {
        SpotifyLyrics { lyrics: Vec::new(), synced: false }
    }
}

/// The fixed-up lines: each keeps its start and words, and ends where the
/// next line starts — the last at the track's end.
pub open spec fn fixed_lines(lines: Seq<(usize, String)>, max_dur_millis: usize) -> Seq<
    LyricLine,
> {
    Seq::new(
        lines.len(),
        |j: int|
            LyricLine {
                start: lines[j].0,
                end: if j + 1 < lines.len() {
                    lines[j + 1].0
                } else {
                    max_dur_millis
                },
                data: lines[j].1,
            },
    )
}

impl SpotifyLyrics {
    /// Backfill each line's end time from its successor's start; lines
    /// arrive as `(start_time_ms, words)` in display order.
    pub fn fix_up(line_synced: bool, lines: Vec<(usize, String)>, max_dur_millis: usize) -> (r:
        SpotifyLyrics)
        ensures
            r.synced == line_synced,
            r.lyrics@ == fixed_lines(lines@, max_dur_millis),
    {
        let ghost orig = lines@;
        let mut lines = lines;
        let mut out: Vec<LyricLine> = Vec::new();
        let ghost mut i: int = 0;
        proof {
            assert(out@ =~= fixed_lines(orig, max_dur_millis).take(0));
        }
        while lines.len() > 0
            invariant
                0 <= i <= orig.len(),
                lines@ == orig.skip(i),
                out@ == fixed_lines(orig, max_dur_millis).take(i),
            decreases lines@.len(),
        {
            let (start, words) = lines.remove(0);
            proof {
                assert(orig.skip(i)[0] == orig[i]);
                assert(lines@ =~= orig.skip(i + 1));
            }
            let end = if lines.len() > 0 {
                lines[0].0
            } else {
                max_dur_millis
            };
            out.push(LyricLine { start, end, data: words });
            proof {
                assert(out@ =~= fixed_lines(orig, max_dur_millis).take(i + 1));
            }
            proof {
                i = i + 1;
            }
        }
        proof {
            assert(orig.skip(i) =~= Seq::<(usize, String)>::empty());
            assert(i == orig.len());
            assert(fixed_lines(orig, max_dur_millis).take(i) =~= fixed_lines(
                orig,
                max_dur_millis,
            ));
        }
        SpotifyLyrics { lyrics: out, synced: line_synced }
    }
}

} // verus!
