//! Synthesis of the adaptive-streaming master playlist.

use crate::planner::{ResolvedRendition, VideoProcessingService};
use crate::text::{
    chars_of, decimal, free_of, lemma_decimal_free_of_newline, lemma_lines_append,
    lemma_lines_prepend, lemma_lines_single, lemma_replace_free_of_newline, lines, push_replaced,
    push_signed, push_text, replace_char, text_of,
};
use vstd::prelude::*;

verus! {

/// The two header lines of a master playlist and the blank line after them.
pub open spec fn playlist_header() -> Seq<char> {
    "#EXTM3U\n#EXT-X-VERSION:3\n\n"@
}

/// The bandwidth in bits per second of a video bitrate such as `1000k`:
/// the bitrate with each `k` written out as `000`.
pub open spec fn bandwidth_text(video_bitrate: Seq<char>) -> Seq<char> {
    replace_char(video_bitrate, 'k', "000"@)
}

/// The part of a stream block that announces the bandwidth.
pub open spec fn stream_block_head(r: ResolvedRendition) -> Seq<char> {
    "#EXT-X-STREAM-INF:BANDWIDTH="@ + bandwidth_text(r.video_bitrate@)
}

/// The block of one rendition: its stream line, the name of its playlist
/// and a blank line.
pub open spec fn stream_block(r: ResolvedRendition) -> Seq<char> {
    stream_block_head(r) + ",RESOLUTION="@ + decimal(r.width as int) + "x"@ + decimal(
        r.height as int,
    ) + "\n"@ + r.quality@ + ".m3u8\n\n"@
}

/// The blocks of `renditions`, one after the other in their order.
pub open spec fn stream_blocks(renditions: Seq<ResolvedRendition>) -> Seq<char>
    decreases renditions.len(),
{
    if renditions.len() == 0 {
        Seq::empty()
    } else {
        stream_blocks(renditions.drop_last()) + stream_block(renditions.last())
    }
}

/// The master playlist of `renditions`.
pub open spec fn master_playlist(renditions: Seq<ResolvedRendition>) -> Seq<char> {
    playlist_header() + stream_blocks(renditions)
}

impl VideoProcessingService {
    /// Renders the master playlist of `renditions`, one block for each in
    /// the order given.
    pub fn generate_master_playlist(renditions: &Vec<ResolvedRendition>) -> (text: String)
        ensures
            text@ == master_playlist(renditions@),
    {
        let mut out: Vec<char> = Vec::new();
        push_text(&mut out, "#EXTM3U\n#EXT-X-VERSION:3\n\n");
        let mut i: usize = 0;
        assert(renditions@.take(0) == Seq::<ResolvedRendition>::empty());
        while i < renditions.len()
            invariant
                i <= renditions.len(),
                out@ == master_playlist(renditions@.take(i as int)),
            decreases renditions.len() - i,
        {
            let r = &renditions[i];
            let bitrate = chars_of(r.video_bitrate.as_str());
            push_text(&mut out, "#EXT-X-STREAM-INF:BANDWIDTH=");
            push_replaced(&mut out, &bitrate, 'k', "000");
            push_text(&mut out, ",RESOLUTION=");
            push_signed(&mut out, r.width as i64);
            push_text(&mut out, "x");
            push_signed(&mut out, r.height as i64);
            push_text(&mut out, "\n");
            push_text(&mut out, r.quality.as_str());
            push_text(&mut out, ".m3u8\n\n");
            i += 1;
            proof {
                let done = renditions@.take(i as int);
                assert(done.drop_last() == renditions@.take(i - 1));
                assert(done.last() == *r);
                assert(out@ == master_playlist(renditions@.take(i - 1)) + stream_block(*r));
            }
        }
        assert(renditions@.take(renditions.len() as int) == renditions@);
        text_of(&out)
    }
}

/// The blocks of `renditions` from index `from` on.
pub open spec fn stream_blocks_from(renditions: Seq<ResolvedRendition>, from: int) -> Seq<char> {
    stream_blocks(renditions.subrange(from, renditions.len() as int))
}

/// Blocks of a list that is put together from two are the blocks of the
/// first followed by the blocks of the second.
pub proof fn lemma_stream_blocks_concat(a: Seq<ResolvedRendition>, b: Seq<ResolvedRendition>)
    ensures
        stream_blocks(a + b) == stream_blocks(a) + stream_blocks(b),
    decreases b.len(),
{
    if b.len() == 0 {
        assert(a + b == a);
    } else {
        lemma_stream_blocks_concat(a, b.drop_last());
        assert((a + b).drop_last() == a + b.drop_last());
        assert((a + b).last() == b.last());
    }
}

/// A master playlist begins with `#EXTM3U` and the version line, and what
/// follows the header is exactly one block for each rendition, in the order
/// of the renditions: before the block of rendition `i` stand the header
/// and the blocks of the renditions before it, after it the blocks of those
/// behind it. Each block begins by announcing as its bandwidth the video
/// bitrate with every `k` written out as `000`.
pub proof fn lemma_master_playlist_shape(renditions: Seq<ResolvedRendition>, i: int)
    requires
        0 <= i < renditions.len(),
    ensures
        "#EXTM3U\n#EXT-X-VERSION:3"@.is_prefix_of(master_playlist(renditions)),
        master_playlist(renditions) == master_playlist(renditions.take(i)) + stream_block(
            renditions[i],
        ) + stream_blocks_from(renditions, i + 1),
        ("#EXT-X-STREAM-INF:BANDWIDTH="@ + replace_char(
            renditions[i].video_bitrate@,
            'k',
            "000"@,
        )).is_prefix_of(stream_block(renditions[i])),
{
    lemma_master_playlist_header(renditions);
    let before = renditions.take(i);
    let after = renditions.subrange(i + 1, renditions.len() as int);
    let upto = renditions.take(i + 1);
    assert(upto.drop_last() == before);
    assert(upto.last() == renditions[i]);
    assert(renditions == upto + after);
    lemma_stream_blocks_concat(upto, after);
    let block = stream_block(renditions[i]);
    let head = stream_block_head(renditions[i]);
    assert(block.subrange(0, head.len() as int) == head);
}

/// A master playlist begins with `#EXTM3U` and the version line, whatever
/// the renditions.
pub proof fn lemma_master_playlist_header(renditions: Seq<ResolvedRendition>)
    ensures
        "#EXTM3U\n#EXT-X-VERSION:3"@.is_prefix_of(master_playlist(renditions)),
        playlist_header().is_prefix_of(master_playlist(renditions)),
{
    reveal_strlit("#EXTM3U\n#EXT-X-VERSION:3");
    reveal_strlit("#EXTM3U\n#EXT-X-VERSION:3\n\n");
    let header = playlist_header();
    let text = master_playlist(renditions);
    assert(text.subrange(0, header.len() as int) == header);
    assert(text.subrange(0, 24) == "#EXTM3U\n#EXT-X-VERSION:3"@);
}

/// The stream line of a rendition: the tag, the bandwidth and the
/// resolution.
pub open spec fn stream_line(r: ResolvedRendition) -> Seq<char> {
    stream_block_head(r) + ",RESOLUTION="@ + decimal(r.width as int) + "x"@ + decimal(
        r.height as int,
    )
}

/// The line that names the playlist of a rendition.
pub open spec fn playlist_name(r: ResolvedRendition) -> Seq<char> {
    r.quality@ + ".m3u8"@
}

/// Whether a line begins with the stream tag.
pub open spec fn is_stream_line(line: Seq<char>) -> bool {
    "#EXT-X-STREAM-INF:"@.is_prefix_of(line)
}

/// Whether the label and the bitrate of a rendition are plain: they hold
/// no newline, and the label holds no `#`.
pub open spec fn plain_labels(r: ResolvedRendition) -> bool {
    free_of(r.quality@, '\n') && free_of(r.quality@, '#') && free_of(r.video_bitrate@, '\n')
}

/// The lines of the blocks of `renditions`: for each its stream line, the
/// name of its playlist and an empty line.
pub open spec fn block_lines(renditions: Seq<ResolvedRendition>) -> Seq<Seq<char>>
    decreases renditions.len(),
{
    if renditions.len() == 0 {
        Seq::empty()
    } else {
        block_lines(renditions.drop_last()) + seq![
            stream_line(renditions.last()),
            playlist_name(renditions.last()),
            Seq::<char>::empty(),
        ]
    }
}

/// The lines of the master playlist of `renditions`: the two header lines
/// and an empty one, the lines of the blocks, and the empty line behind the
/// last newline.
pub open spec fn playlist_lines(renditions: Seq<ResolvedRendition>) -> Seq<Seq<char>> {
    seq!["#EXTM3U"@, "#EXT-X-VERSION:3"@, Seq::<char>::empty()] + block_lines(renditions)
        + seq![Seq::<char>::empty()]
}

/// How many of `ls` begin with the stream tag.
pub open spec fn count_stream_lines(ls: Seq<Seq<char>>) -> nat
    decreases ls.len(),
{
    if ls.len() == 0 {
        0
    } else {
        count_stream_lines(ls.drop_last()) + if is_stream_line(ls.last()) {
            1nat
        } else {
            0nat
        }
    }
}

/// Counting over two lists of lines is counting over each.
pub proof fn lemma_count_concat(a: Seq<Seq<char>>, b: Seq<Seq<char>>)
    ensures
        count_stream_lines(a + b) == count_stream_lines(a) + count_stream_lines(b),
    decreases b.len(),
{
    if b.len() == 0 {
        assert(a + b == a);
    } else {
        lemma_count_concat(a, b.drop_last());
        assert((a + b).drop_last() == a + b.drop_last());
        assert((a + b).last() == b.last());
    }
}

/// The block of a rendition with plain labels is three lines: the stream
/// line, which begins with the tag, the name of the playlist, which does
/// not, and an empty line.
pub proof fn lemma_block_is_three_lines(r: ResolvedRendition)
    requires
        plain_labels(r),
    ensures
        stream_block(r) == stream_line(r) + seq!['\n'] + (playlist_name(r) + seq!['\n'] + seq![
            '\n',
        ]),
        lines(stream_block(r)) == seq![
            stream_line(r),
            playlist_name(r),
            Seq::<char>::empty(),
            Seq::<char>::empty(),
        ],
        stream_block(r).len() > 0 && stream_block(r).last() == '\n',
        is_stream_line(stream_line(r)),
        !is_stream_line(playlist_name(r)),
        free_of(stream_line(r), '\n'),
        free_of(playlist_name(r), '\n'),
{
    reveal_strlit("#EXT-X-STREAM-INF:BANDWIDTH=");
    reveal_strlit("#EXT-X-STREAM-INF:");
    reveal_strlit(",RESOLUTION=");
    reveal_strlit("x");
    reveal_strlit("\n");
    reveal_strlit(".m3u8\n\n");
    reveal_strlit(".m3u8");
    reveal_strlit("000");
    let sl = stream_line(r);
    let name = playlist_name(r);
    let empty = Seq::<char>::empty();
    lemma_replace_free_of_newline(r.video_bitrate@, 'k', "000"@);
    lemma_decimal_free_of_newline(r.width as int);
    lemma_decimal_free_of_newline(r.height as int);
    assert(free_of("#EXT-X-STREAM-INF:BANDWIDTH="@, '\n'));
    assert(free_of(",RESOLUTION="@, '\n'));
    assert(free_of(sl, '\n'));
    assert(free_of(name, '\n'));
    assert(stream_block(r) =~= sl + seq!['\n'] + (name + seq!['\n'] + seq!['\n']));
    assert(seq!['\n'] =~= empty + seq!['\n'] + empty);
    lemma_lines_single(empty);
    lemma_lines_prepend(empty, empty);
    lemma_lines_prepend(name, seq!['\n']);
    assert(name + seq!['\n'] + seq!['\n'] =~= name + seq!['\n'] + (empty + seq!['\n'] + empty));
    lemma_lines_prepend(sl, name + seq!['\n'] + seq!['\n']);
    assert(lines(stream_block(r)) =~= seq![sl, name, empty, empty]);
    assert("#EXT-X-STREAM-INF:"@ =~= sl.subrange(0, 18));
    assert(name[0] != '#') by {
        if r.quality@.len() > 0 {
            assert(name[0] == r.quality@[0]);
        } else {
            assert(name[0] == ".m3u8"@[0]);
        }
    }
    assert(!is_stream_line(name)) by {
        if is_stream_line(name) {
            assert("#EXT-X-STREAM-INF:"@[0] == name[0]);
        }
    }
}

/// The header of a playlist is two lines and an empty one; none of them
/// begins with the stream tag.
pub proof fn lemma_header_lines()
    ensures
        lines(playlist_header()) == seq![
            "#EXTM3U"@,
            "#EXT-X-VERSION:3"@,
            Seq::<char>::empty(),
            Seq::<char>::empty(),
        ],
        playlist_header().len() > 0 && playlist_header().last() == '\n',
        !is_stream_line("#EXTM3U"@),
        !is_stream_line("#EXT-X-VERSION:3"@),
        !is_stream_line(Seq::<char>::empty()),
{
    reveal_strlit("#EXTM3U\n#EXT-X-VERSION:3\n\n");
    reveal_strlit("#EXTM3U");
    reveal_strlit("#EXT-X-VERSION:3");
    reveal_strlit("#EXT-X-STREAM-INF:");
    let first = "#EXTM3U"@;
    let second = "#EXT-X-VERSION:3"@;
    let empty = Seq::<char>::empty();
    assert(free_of(first, '\n'));
    assert(free_of(second, '\n'));
    assert(playlist_header() =~= first + seq!['\n'] + (second + seq!['\n'] + (empty + seq![
        '\n',
    ] + empty)));
    lemma_lines_single(empty);
    lemma_lines_prepend(empty, empty);
    lemma_lines_prepend(second, empty + seq!['\n'] + empty);
    lemma_lines_prepend(first, second + seq!['\n'] + (empty + seq!['\n'] + empty));
    assert(lines(playlist_header()) =~= seq![first, second, empty, empty]);
}

/// The blocks of renditions with plain labels give three lines each, in
/// the order of the renditions, and one stream line each.
pub proof fn lemma_block_lines(renditions: Seq<ResolvedRendition>)
    requires
        forall|i: int| 0 <= i < renditions.len() ==> plain_labels(#[trigger] renditions[i]),
    ensures
        block_lines(renditions).len() == 3 * renditions.len(),
        forall|i: int|
            0 <= i < renditions.len() ==> {
                &&& block_lines(renditions)[3 * i] == stream_line(#[trigger] renditions[i])
                &&& block_lines(renditions)[3 * i + 1] == playlist_name(renditions[i])
                &&& block_lines(renditions)[3 * i + 2] == Seq::<char>::empty()
            },
        forall|j: int|
            0 <= j < block_lines(renditions).len() ==> (is_stream_line(
                #[trigger] block_lines(renditions)[j],
            ) <==> j % 3 == 0),
        count_stream_lines(block_lines(renditions)) == renditions.len(),
    decreases renditions.len(),
{
    if renditions.len() > 0 {
        let shorter = renditions.drop_last();
        let r = renditions.last();
        assert(plain_labels(renditions[renditions.len() - 1]));
        assert forall|i: int| 0 <= i < shorter.len() implies plain_labels(
            #[trigger] shorter[i],
        ) by {
            assert(shorter[i] == renditions[i]);
        }
        lemma_block_lines(shorter);
        lemma_block_is_three_lines(r);
        lemma_header_lines();
        let before = block_lines(shorter);
        let block = seq![stream_line(r), playlist_name(r), Seq::<char>::empty()];
        let all = block_lines(renditions);
        assert(all == before + block);
        assert forall|i: int| 0 <= i < renditions.len() implies {
            &&& all[3 * i] == stream_line(#[trigger] renditions[i])
            &&& all[3 * i + 1] == playlist_name(renditions[i])
            &&& all[3 * i + 2] == Seq::<char>::empty()
        } by {
            if i < shorter.len() {
                assert(shorter[i] == renditions[i]);
                assert(all[3 * i] == before[3 * i]);
                assert(all[3 * i + 1] == before[3 * i + 1]);
                assert(all[3 * i + 2] == before[3 * i + 2]);
            } else {
                assert(all[3 * i] == block[0]);
                assert(all[3 * i + 1] == block[1]);
                assert(all[3 * i + 2] == block[2]);
            }
        }
        assert forall|j: int| 0 <= j < all.len() implies (is_stream_line(#[trigger] all[j]) <==> j
            % 3 == 0) by {
            if j < before.len() {
                assert(all[j] == before[j]);
            } else {
                assert(all[j] == block[j - before.len()]);
            }
        }
        lemma_count_concat(before, block);
        assert(count_stream_lines(block) == 1) by {
            reveal_with_fuel(count_stream_lines, 4);
            assert(block.drop_last() == seq![stream_line(r), playlist_name(r)]);
            assert(block.drop_last().drop_last() == seq![stream_line(r)]);
            assert(block.drop_last().drop_last().drop_last() == Seq::<Seq<char>>::empty());
        }
    }
}

/// A master playlist ends in a newline.
pub proof fn lemma_playlist_ends_in_newline(renditions: Seq<ResolvedRendition>)
    requires
        forall|i: int| 0 <= i < renditions.len() ==> plain_labels(#[trigger] renditions[i]),
    ensures
        master_playlist(renditions).len() > 0,
        master_playlist(renditions).last() == '\n',
{
    lemma_header_lines();
    if renditions.len() > 0 {
        assert(plain_labels(renditions[renditions.len() - 1]));
        lemma_block_is_three_lines(renditions.last());
    }
}

/// The master playlist of renditions with plain labels, read line by
/// line: the lines are those of `playlist_lines`.
pub proof fn lemma_playlist_lines(renditions: Seq<ResolvedRendition>)
    requires
        forall|i: int| 0 <= i < renditions.len() ==> plain_labels(#[trigger] renditions[i]),
    ensures
        lines(master_playlist(renditions)) == playlist_lines(renditions),
    decreases renditions.len(),
{
    lemma_header_lines();
    let empty = Seq::<char>::empty();
    let head = seq!["#EXTM3U"@, "#EXT-X-VERSION:3"@, empty];
    if renditions.len() == 0 {
        assert(master_playlist(renditions) == playlist_header());
        assert(playlist_lines(renditions) =~= seq!["#EXTM3U"@, "#EXT-X-VERSION:3"@, empty, empty]);
    } else {
        let shorter = renditions.drop_last();
        let r = renditions.last();
        assert(plain_labels(renditions[renditions.len() - 1]));
        assert forall|i: int| 0 <= i < shorter.len() implies plain_labels(
            #[trigger] shorter[i],
        ) by {
            assert(shorter[i] == renditions[i]);
        }
        lemma_playlist_lines(shorter);
        lemma_playlist_ends_in_newline(shorter);
        lemma_block_is_three_lines(r);
        let before = master_playlist(shorter);
        assert(master_playlist(renditions) == before + stream_block(r));
        lemma_lines_append(before, stream_block(r));
        assert(playlist_lines(shorter).drop_last() == head + block_lines(shorter));
        assert(playlist_lines(renditions) =~= (head + block_lines(shorter)) + seq![
            stream_line(r),
            playlist_name(r),
            empty,
            empty,
        ]);
    }
}

/// Read line by line, the master playlist of renditions whose labels and
/// bitrates are plain has exactly one line that begins with the stream tag
/// for each rendition, in the order of the renditions, and the line right
/// after it names the playlist of that rendition: after three lines of
/// header, rendition `i` has the lines `3 + 3 * i` and `4 + 3 * i`, and no
/// other line begins with the tag.
pub proof fn lemma_one_stream_line_per_rendition(renditions: Seq<ResolvedRendition>)
    requires
        forall|i: int| 0 <= i < renditions.len() ==> plain_labels(#[trigger] renditions[i]),
    ensures
        lines(master_playlist(renditions)).len() == 4 + 3 * renditions.len(),
        count_stream_lines(lines(master_playlist(renditions))) == renditions.len(),
        forall|i: int|
            0 <= i < renditions.len() ==> {
                &&& lines(master_playlist(renditions))[3 + 3 * i] == stream_line(
                    #[trigger] renditions[i],
                )
                &&& is_stream_line(stream_line(renditions[i]))
                &&& lines(master_playlist(renditions))[4 + 3 * i] == renditions[i].quality@
                    + ".m3u8"@
            },
        forall|j: int|
            0 <= j < 4 + 3 * renditions.len() ==> (is_stream_line(
                #[trigger] lines(master_playlist(renditions))[j],
            ) <==> 3 <= j < 3 + 3 * renditions.len() && (j - 3) % 3 == 0),
{
    lemma_playlist_lines(renditions);
    lemma_block_lines(renditions);
    lemma_header_lines();
    let empty = Seq::<char>::empty();
    let head = seq!["#EXTM3U"@, "#EXT-X-VERSION:3"@, empty];
    let blocks = block_lines(renditions);
    let all = playlist_lines(renditions);
    assert(all == head + blocks + seq![empty]);
    assert forall|i: int| 0 <= i < renditions.len() implies {
        &&& all[3 + 3 * i] == stream_line(#[trigger] renditions[i])
        &&& is_stream_line(stream_line(renditions[i]))
        &&& all[4 + 3 * i] == renditions[i].quality@ + ".m3u8"@
    } by {
        assert(all[3 + 3 * i] == blocks[3 * i]);
        assert(all[4 + 3 * i] == blocks[3 * i + 1]);
        assert(plain_labels(renditions[i]));
        lemma_block_is_three_lines(renditions[i]);
    }
    assert forall|j: int| 0 <= j < 4 + 3 * renditions.len() implies (is_stream_line(
        #[trigger] all[j],
    ) <==> 3 <= j < 3 + 3 * renditions.len() && (j - 3) % 3 == 0) by {
        if j < 3 {
            assert(all[j] == head[j]);
        } else if j < 3 + blocks.len() {
            assert(all[j] == blocks[j - 3]);
        } else {
            assert(all[j] == empty);
        }
    }
    lemma_count_concat(head + blocks, seq![empty]);
    lemma_count_concat(head, blocks);
    assert(count_stream_lines(head) == 0) by {
        reveal_with_fuel(count_stream_lines, 4);
        assert(head.drop_last() == seq!["#EXTM3U"@, "#EXT-X-VERSION:3"@]);
        assert(head.drop_last().drop_last() == seq!["#EXTM3U"@]);
        assert(head.drop_last().drop_last().drop_last() == Seq::<Seq<char>>::empty());
    }
    assert(count_stream_lines(seq![empty]) == 0) by {
        reveal_with_fuel(count_stream_lines, 2);
        assert(seq![empty].drop_last() == Seq::<Seq<char>>::empty());
    }
}

} // verus!
