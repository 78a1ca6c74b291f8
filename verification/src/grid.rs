//! The grid assembler: walks the resized pixels row-major, handles
//! transparency, classifies opaque pixels through the quantizer, assigns
//! characters in first-occurrence order, and emits the rows of characters
//! and the palette mapping.

use vstd::prelude::*;
use crate::alphabet::{alphabet, alphabet_char, lemma_alphabet_reserved, ALPHABET_LEN};
use crate::hexcolor::{hex_color, hex_color_seq};
use crate::quant::{nq_colormap, nq_index, nq_color_map_rgba, nq_index_of};

verus! {

/// The classification of the cell at flat position `k`: `None` for a
/// transparent pixel (alpha below 128), otherwise the palette index that
/// the quantizer assigns to the pixel.
pub open spec fn cell_class(nq: color_quant::NeuQuant, pixels: Seq<u8>, k: int) -> Option<int>
    recommends
        0 <= k,
        4 * k + 3 < pixels.len(),
{
    if pixels[4 * k + 3] < 128 {
        None
    } else {
        Some(nq_index(nq, pixels[4 * k], pixels[4 * k + 1], pixels[4 * k + 2], pixels[4 * k + 3]))
    }
}

/// The classification of every cell of an `n`-cell grid.
pub open spec fn classes_of(nq: color_quant::NeuQuant, pixels: Seq<u8>, n: int) -> Seq<
    Option<int>,
> {
    Seq::new(n as nat, |k: int| cell_class(nq, pixels, k))
}

/// The distinct palette indices observed among the first `k` cells, in
/// first-occurrence order.
pub open spec fn seen(classes: Seq<Option<int>>, k: int) -> Seq<int>
    decreases k,
{
    if k <= 0 {
        Seq::empty()
    } else {
        let prev = seen(classes, k - 1);
        match classes[k - 1] {
            None => prev,
            Some(i) => if prev.contains(i) {
                prev
            } else {
                prev.push(i)
            },
        }
    }
}

/// The position of the first occurrence of `v` in `s`.
pub open spec fn rank(s: Seq<int>, v: int) -> int
    decreases s.len(),
{
    if s.len() == 0 {
        0
    } else if s[0] == v {
        0
    } else {
        1 + rank(s.drop_first(), v)
    }
}

/// The character assigned to the palette entry of first-occurrence rank
/// `p`: the `p`-th alphabet character, or the overflow character `?` once
/// the alphabet is exhausted.
pub open spec fn char_for_rank(p: int) -> char {
    if p < ALPHABET_LEN {
        alphabet()[p]
    } else {
        '?'
    }
}

/// The character emitted for the cell at flat position `k`.
pub open spec fn cell_char(classes: Seq<Option<int>>, k: int) -> char
    recommends
        0 <= k < classes.len(),
{
    match classes[k] {
        None => '.',
        Some(i) => char_for_rank(rank(seen(classes, k + 1), i)),
    }
}

/// The characters of row `y` of a grid `tw` cells wide.
pub open spec fn row_chars(classes: Seq<Option<int>>, tw: int, y: int) -> Seq<char> {
    Seq::new(tw as nat, |x: int| cell_char(classes, y * tw + x))
}

/// The assembled text of the first `th` rows: rows separated by single
/// newlines, with no trailing newline.
pub open spec fn art_text(classes: Seq<Option<int>>, tw: int, th: int) -> Seq<char>
    decreases th,
{
    if th <= 0 {
        Seq::empty()
    } else if th == 1 {
        row_chars(classes, tw, 0)
    } else {
        art_text(classes, tw, th - 1) + seq!['\n'] + row_chars(classes, tw, th - 1)
    }
}

/// `n` capped at the alphabet size.
pub open spec fn cap86(n: int) -> int {
    if n < ALPHABET_LEN {
        n
    } else {
        ALPHABET_LEN as int
    }
}

/// The `#rrggbb` text of palette entry `idx` of an RGBA color map.
pub open spec fn entry_color(cmap: Seq<u8>, idx: int) -> Seq<char>
    recommends
        0 <= idx,
        4 * idx + 2 < cmap.len(),
{
    hex_color_seq(cmap[4 * idx], cmap[4 * idx + 1], cmap[4 * idx + 2])
}

/// The emitted palette: the reserved `.` mapped to no color, followed by
/// one entry per assigned alphabet character, in assignment order.
pub open spec fn palette_spec(classes: Seq<Option<int>>, n: int, cmap: Seq<u8>) -> Seq<
    (char, Option<Seq<char>>),
> {
    let s = seen(classes, n);
    seq![('.', None::<Seq<char>>)] + Seq::new(
        cap86(s.len() as int) as nat,
        |p: int| (alphabet()[p], Some(entry_color(cmap, s[p]))),
    )
}

/// The abstract contents of an emitted palette: each character with the
/// text of its color, if any.
pub open spec fn palette_view(pe: Seq<(char, Option<String>)>) -> Seq<(char, Option<Seq<char>>)> {
    pe.map_values(
        |e: (char, Option<String>)|
            (
                e.0,
                match e.1 {
                    None => None::<Seq<char>>,
                    Some(s) => Some(s@),
                },
            ),
    )
}

/// Appending a fresh value puts it at the end of the first-occurrence
/// order.
proof fn lemma_rank_push_new(s: Seq<int>, v: int)
    requires
        !s.contains(v),
    ensures
        rank(s.push(v), v) == s.len(),
    decreases s.len(),
{
    if s.len() == 0 {
        assert(s.push(v)[0] == v);
    } else {
        assert(s[0] != v);
        assert(s.push(v)[0] == s[0]);
        assert(s.push(v).drop_first() =~= s.drop_first().push(v));
        assert(!s.drop_first().contains(v)) by {
            if s.drop_first().contains(v) {
                let j = choose|j: int| 0 <= j < s.drop_first().len() && s.drop_first()[j] == v;
                assert(s[j + 1] == v);
            }
        }
        lemma_rank_push_new(s.drop_first(), v);
    }
}

/// Appending a value leaves the rank of every value already present
/// unchanged.
proof fn lemma_rank_push_old(s: Seq<int>, w: int, v: int)
    requires
        s.contains(v),
    ensures
        rank(s.push(w), v) == rank(s, v),
    decreases s.len(),
{
    assert(s.len() > 0);
    if s[0] == v {
        assert(s.push(w)[0] == v);
    } else {
        assert(s.push(w)[0] == s[0]);
        assert(s.push(w).drop_first() =~= s.drop_first().push(w));
        assert(s.drop_first().contains(v)) by {
            let j = choose|j: int| 0 <= j < s.len() && s[j] == v;
            assert(s.drop_first()[j - 1] == v);
        }
        lemma_rank_push_old(s.drop_first(), w, v);
    }
}

/// The first occurrence of a present value lies inside the sequence and
/// holds that value.
proof fn lemma_rank_index(s: Seq<int>, v: int)
    requires
        s.contains(v),
    ensures
        0 <= rank(s, v) < s.len(),
        s[rank(s, v)] == v,
    decreases s.len(),
{
    assert(s.len() > 0);
    if s[0] == v {
    } else {
        assert(s.drop_first().contains(v)) by {
            let j = choose|j: int| 0 <= j < s.len() && s[j] == v;
            assert(s.drop_first()[j - 1] == v);
        }
        lemma_rank_index(s.drop_first(), v);
        assert(s[rank(s, v)] == s.drop_first()[rank(s.drop_first(), v)]);
    }
}

} // verus!

verus! {

broadcast use vstd::seq_lib::group_seq_properties;

/// One emitted palette entry has the given character and the `#rrggbb` text
/// of the given color map entry.
pub open spec fn entry_is(e: (char, Option<String>), c: char, cmap: Seq<u8>, idx: int) -> bool {
    e.0 == c && e.1 is Some && e.1->0@ == entry_color(cmap, idx)
}

/// The walk state after `k` cells: `count` distinct indices have been
/// observed; `assigned` maps each observed index to its character;
/// `palette` holds the reserved `.` entry followed by one entry per
/// assigned alphabet character, in first-occurrence order.
pub open spec fn walk_inv(
    classes: Seq<Option<int>>,
    k: int,
    assigned: Seq<Option<char>>,
    count: int,
    palette: Seq<(char, Option<String>)>,
    cmap: Seq<u8>,
    ncolors: int,
) -> bool {
    let s = seen(classes, k);
    &&& count == s.len()
    &&& s.len() <= k
    &&& assigned.len() == ncolors
    &&& (forall|i: int| 0 <= i < ncolors ==> (#[trigger] assigned[i] is Some <==> s.contains(i)))
    &&& (forall|i: int|
        0 <= i < ncolors && s.contains(i) ==> (#[trigger] assigned[i])->0 == char_for_rank(
            rank(s, i),
        ))
    &&& (forall|j: int| 0 <= j < s.len() ==> 0 <= #[trigger] s[j] < ncolors)
    &&& palette.len() == 1 + cap86(count)
    &&& palette[0].0 == '.'
    &&& palette[0].1 is None
    &&& (forall|p: int|
        0 <= p < cap86(count) ==> entry_is(#[trigger] palette[p + 1], alphabet()[p], cmap, s[p]))
}

/// Resolves the character of one opaque cell: looks the palette index up
/// and, on first occurrence, assigns the next unused alphabet character
/// (or the overflow character `?`) and records the entry's color.
fn process_cell(
    idx: usize,
    assigned: &mut Vec<Option<char>>,
    count: &mut usize,
    palette: &mut Vec<(char, Option<String>)>,
    cmap: &Vec<u8>,
    ncolors: usize,
    Ghost(classes): Ghost<Seq<Option<int>>>,
    Ghost(k): Ghost<int>,
) -> (c: char)
    requires
        walk_inv(classes, k, old(assigned)@, *old(count) as int, old(palette)@, cmap@,
            ncolors as int),
        0 <= k < classes.len(),
        classes[k] == Some(idx as int),
        idx < ncolors,
        ncolors <= 256,
        cmap@.len() == 4 * ncolors,
        k < usize::MAX,
    ensures
        walk_inv(classes, k + 1, final(assigned)@, *final(count) as int, final(palette)@, cmap@,
            ncolors as int),
        c == cell_char(classes, k),
{
    let ghost s = seen(classes, k);
    match assigned[idx] {
        Some(ch) => {
            proof {
                assert(s.contains(idx as int));
                assert(seen(classes, k + 1) == s);
            }
            ch
        },
        None => {
            proof {
                assert(!s.contains(idx as int));
                assert(seen(classes, k + 1) == s.push(idx as int));
                lemma_rank_push_new(s, idx as int);
            }
            let c: char = if *count < ALPHABET_LEN {
                alphabet_char(*count)
            } else {
                '?'
            };
            assigned.set(idx, Some(c));
            if *count < ALPHABET_LEN {
                let base: usize = 4 * idx;
                let hs = hex_color(cmap[base], cmap[base + 1], cmap[base + 2]);
                palette.push((c, Some(hs)));
            }
            *count += 1;
            proof {
                let s2 = seen(classes, k + 1);
                assert(s2 == s.push(idx as int));
                assert(s2.len() == s.len() + 1);
                assert forall|i: int| 0 <= i < ncolors && s2.contains(i) implies (
                #[trigger] assigned@[i])->0 == char_for_rank(rank(s2, i)) by {
                    if i == idx as int {
                        assert(rank(s2, i) == s.len());
                    } else {
                        assert(s.contains(i));
                        lemma_rank_push_old(s, idx as int, i);
                    }
                }
                assert forall|p: int| 0 <= p < cap86(*count as int) implies entry_is(
                    #[trigger] palette@[p + 1],
                    alphabet()[p],
                    cmap@,
                    s2[p],
                ) by {
                    if p < s.len() {
                        assert(s2[p] == s[p]);
                    } else {
                        assert(p == s.len() && p < 86);
                        assert(s2[p] == idx as int);
                    }
                }
            }
            c
        },
    }
}


/// Relies on `String`'s `FromIterator<char>` impl: collecting characters
/// yields a string holding exactly those characters, in order.
#[verifier::external_body]
fn chars_to_string(v: &Vec<char>) -> (s: String)
    ensures
        s@ == v@,
{
    v.iter().collect()
}

/// The newline that separates row `y` from the rows before it.
pub open spec fn row_sep(y: int) -> Seq<char> {
    if y > 0 {
        seq!['\n']
    } else {
        Seq::empty()
    }
}

/// Walks the resized pixels row-major, top-to-bottom then left-to-right,
/// and assembles the character grid and the palette. Transparent pixels
/// (alpha below 128) become the reserved `.` and never touch the quantizer
/// or the symbol assignment.
pub fn assemble_grid(
    tw: u32,
    th: u32,
    pixels: &Vec<u8>,
    nq: &color_quant::NeuQuant,
    ncolors: usize,
) -> (out: (String, Vec<(char, Option<String>)>))
    requires
        1 <= tw,
        1 <= th,
        pixels@.len() == 4 * (tw as int) * (th as int),
        nq_colormap(*nq).len() == 4 * ncolors,
        1 <= ncolors <= 256,
        forall|r: u8, g: u8, b: u8, a: u8| 0 <= #[trigger] nq_index(*nq, r, g, b, a) < ncolors,
    ensures
        out.0@ == art_text(classes_of(*nq, pixels@, tw as int * th as int), tw as int, th as int),
        palette_view(out.1@) == palette_spec(
            classes_of(*nq, pixels@, tw as int * th as int),
            tw as int * th as int,
            nq_colormap(*nq),
        ),
{
    let ghost n_int = tw as int * th as int;
    proof {
        assert(4 * ((tw as int) * (th as int)) == 4 * (tw as int) * (th as int))
            by (nonlinear_arith);
    }
    let ghost classes = classes_of(*nq, pixels@, n_int);
    let len = pixels.len();
    let twu = tw as usize;
    let thu = th as usize;
    assert(twu as int == tw as int && thu as int == th as int);
    let cmap = nq_color_map_rgba(nq);
    let mut assigned: Vec<Option<char>> = Vec::new();
    let mut i: usize = 0;
    while i < ncolors
        invariant
            i <= ncolors,
            assigned@.len() == i as int,
            forall|j: int| 0 <= j < i as int ==> assigned@[j] is None,
        decreases ncolors - i,
    {
        assigned.push(None);
        i += 1;
    }
    let mut count: usize = 0;
    let mut palette: Vec<(char, Option<String>)> = Vec::new();
    palette.push(('.', None));
    let mut art: Vec<char> = Vec::new();
    proof {
        assert(seen(classes, 0) =~= Seq::<int>::empty());
        assert(cap86(0) == 0);
        assert(art_text(classes, tw as int, 0) =~= Seq::<char>::empty());
    }
    let mut y: usize = 0;
    while y < thu
        invariant
            y <= thu,
            twu as int == tw as int,
            thu as int == th as int,
            1 <= tw,
            1 <= th,
            1 <= ncolors <= 256,
            len as int == pixels@.len(),
            pixels@.len() == 4 * n_int,
            n_int == tw as int * th as int,
            classes == classes_of(*nq, pixels@, n_int),
            classes.len() == n_int,
            cmap@ == nq_colormap(*nq),
            cmap@.len() == 4 * ncolors,
            forall|r: u8, g: u8, b: u8, a: u8| 0 <= #[trigger] nq_index(*nq, r, g, b, a)
                < ncolors,
            walk_inv(classes, y as int * tw as int, assigned@, count as int, palette@, cmap@,
                ncolors as int),
            art@ == art_text(classes, tw as int, y as int),
        decreases thu - y,
    {
        if y > 0 {
            art.push('\n');
        }
        proof {
            assert(art@ =~= art_text(classes, tw as int, y as int) + row_sep(y as int)
                + row_chars(classes, tw as int, y as int).take(0));
        }
        let mut x: usize = 0;
        while x < twu
            invariant
                x <= twu,
                y < thu,
                twu as int == tw as int,
                thu as int == th as int,
                1 <= tw,
                1 <= th,
                1 <= ncolors <= 256,
                len as int == pixels@.len(),
                pixels@.len() == 4 * n_int,
                n_int == tw as int * th as int,
                classes == classes_of(*nq, pixels@, n_int),
                classes.len() == n_int,
                cmap@ == nq_colormap(*nq),
                cmap@.len() == 4 * ncolors,
                forall|r: u8, g: u8, b: u8, a: u8| 0 <= #[trigger] nq_index(*nq, r, g, b, a)
                    < ncolors,
                walk_inv(classes, y as int * tw as int + x as int, assigned@, count as int,
                    palette@, cmap@, ncolors as int),
                art@ == art_text(classes, tw as int, y as int) + row_sep(y as int) + row_chars(
                    classes,
                    tw as int,
                    y as int,
                ).take(x as int),
            decreases twu - x,
        {
            proof {
                assert((y as int) * (twu as int) + (x as int) < (twu as int) * (thu as int))
                    by (nonlinear_arith)
                    requires
                        (y as int) < (thu as int),
                        (x as int) < (twu as int),
                ;
                assert(tw as int * th as int == twu as int * thu as int) by (nonlinear_arith)
                    requires
                        twu as int == tw as int,
                        thu as int == th as int,
                ;
            }
            let k: usize = y * twu + x;
            assert((k as int) < n_int);
            assert(4 * (k as int) + 3 < (len as int));
            let base: usize = 4 * k;
            let pr = pixels[base];
            let pg = pixels[base + 1];
            let pb = pixels[base + 2];
            let pa = pixels[base + 3];
            let ghost kk = k as int;
            proof {
                assert(classes[kk] == cell_class(*nq, pixels@, kk));
                assert(pixels@[4 * kk] == pr && pixels@[4 * kk + 1] == pg && pixels@[4 * kk + 2]
                    == pb && pixels@[4 * kk + 3] == pa);
            }
            let c: char;
            if pa < 128 {
                c = '.';
                proof {
                    assert(classes[kk] is None);
                    assert(cell_char(classes, kk) == '.');
                    assert(seen(classes, kk + 1) == seen(classes, kk));
                }
            } else {
                let idx = nq_index_of(nq, pr, pg, pb, pa);
                proof {
                    assert(classes[kk] == Some(nq_index(*nq, pr, pg, pb, pa)));
                    assert(0 <= nq_index(*nq, pr, pg, pb, pa) < ncolors);
                }
                c = process_cell(idx, &mut assigned, &mut count, &mut palette, &cmap, ncolors,
                    Ghost(classes), Ghost(kk));
            }
            art.push(c);
            x += 1;
            proof {
                let row = row_chars(classes, tw as int, y as int);
                assert(row[x as int - 1] == cell_char(classes, kk));
                assert(row.take(x as int) =~= row.take(x as int - 1).push(cell_char(classes, kk)));
                assert(art@ =~= art_text(classes, tw as int, y as int) + row_sep(y as int)
                    + row.take(x as int));
            }
        }
        y += 1;
        proof {
            let row = row_chars(classes, tw as int, y as int - 1);
            assert(row.take(twu as int) =~= row);
            if y as int - 1 == 0 {
                assert(art_text(classes, tw as int, 1) == row_chars(classes, tw as int, 0));
                assert(art@ =~= art_text(classes, tw as int, 1));
            } else {
                assert(art_text(classes, tw as int, y as int) == art_text(classes, tw as int,
                    y as int - 1) + seq!['\n'] + row);
                assert(art@ =~= art_text(classes, tw as int, y as int));
            }
            assert((y as int - 1) * (tw as int) + tw as int == y as int * tw as int)
                by (nonlinear_arith);
        }
    }
    let art_string = chars_to_string(&art);
    proof {
        assert(thu as int * twu as int == n_int) by (nonlinear_arith)
            requires
                twu as int == tw as int,
                thu as int == th as int,
                n_int == tw as int * th as int,
        ;
        let ps = palette_spec(classes, n_int, cmap@);
        let pv = palette_view(palette@);
        let s = seen(classes, n_int);
        assert(pv.len() == palette@.len());
        assert(ps.len() == 1 + cap86(s.len() as int));
        assert forall|j: int| 0 <= j < pv.len() implies pv[j] == ps[j] by {
            if j == 0 {
                assert(palette@[0].0 == '.' && palette@[0].1 is None);
            } else {
                let p = j - 1;
                assert(entry_is(palette@[p + 1], alphabet()[p], cmap@, s[p]));
            }
        }
        assert(pv =~= ps);
    }
    (art_string, palette)
}

} // verus!

verus! {

/// The flat position of the cell in column `x` of row `y` of a grid `tw`
/// cells wide.
pub open spec fn cell_at(tw: int, y: int, x: int) -> int {
    y * tw + x
}

/// The position, in the assembled text, of the character of the cell in
/// column `x` of row `y`: each row occupies `tw` characters plus its
/// newline.
pub open spec fn text_pos(tw: int, y: int, x: int) -> int {
    y * (tw + 1) + x
}

/// Law: the palette holds at most 87 entries — one per alphabet symbol
/// plus the reserved `.` — whatever the configuration or the image.
pub proof fn lemma_palette_bound(classes: Seq<Option<int>>, n: int, cmap: Seq<u8>)
    ensures
        palette_spec(classes, n, cmap).len() <= 87,
{
}

/// Law: every grid character is the reserved `.`, an alphabet character or
/// the overflow `?`; in particular none is a newline, so the rows of the
/// text are exactly what splitting on newlines yields.
pub proof fn lemma_cell_char_not_newline(classes: Seq<Option<int>>, k: int)
    requires
        0 <= k < classes.len(),
    ensures
        cell_char(classes, k) != '\n',
{
    lemma_alphabet_reserved();
    if classes[k] is Some {
        let i = classes[k]->0;
        let s2 = seen(classes, k + 1);
        assert(s2.contains(i));
        lemma_rank_index(s2, i);
    }
}

/// Law: the assembled text consists of `th` rows of `tw` characters each,
/// separated by single newlines: the character of the cell in column `x`
/// of row `y` stands at position `y * (tw + 1) + x`, and a newline stands
/// after every row but the last.
pub proof fn lemma_art_shape(classes: Seq<Option<int>>, tw: int, th: int)
    requires
        tw >= 1,
        th >= 1,
    ensures
        art_text(classes, tw, th).len() == th * (tw + 1) - 1,
        forall|y: int, x: int|
            0 <= y < th && 0 <= x < tw ==> art_text(classes, tw, th)[#[trigger] text_pos(tw, y, x)]
                == cell_char(classes, cell_at(tw, y, x)),
        forall|y: int|
            0 <= y < th - 1 ==> art_text(classes, tw, th)[#[trigger] text_pos(tw, y, tw)] == '\n',
    decreases th,
{
    let a = art_text(classes, tw, th);
    if th == 1 {
        assert(a == row_chars(classes, tw, 0));
        assert forall|y: int, x: int| 0 <= y < 1 && 0 <= x < tw implies a[#[trigger] text_pos(
            tw,
            y,
            x,
        )] == cell_char(classes, cell_at(tw, y, x)) by {
            assert(y == 0);
            assert(text_pos(tw, 0, x) == x);
            assert(cell_at(tw, 0, x) == x);
            assert(a[x] == cell_char(classes, x));
        }
    } else {
        lemma_art_shape(classes, tw, th - 1);
        let prev = art_text(classes, tw, th - 1);
        let row = row_chars(classes, tw, th - 1);
        assert(a == prev + seq!['\n'] + row);
        assert((th - 1) * (tw + 1) - 1 + 1 + tw == th * (tw + 1) - 1) by (nonlinear_arith);
        assert(a.len() == th * (tw + 1) - 1);
        assert forall|y: int, x: int| 0 <= y < th && 0 <= x < tw implies a[#[trigger] text_pos(
            tw,
            y,
            x,
        )] == cell_char(classes, cell_at(tw, y, x)) by {
            if y < th - 1 {
                assert(text_pos(tw, y, x) < (th - 1) * (tw + 1) - 1) by (nonlinear_arith)
                    requires
                        text_pos(tw, y, x) == y * (tw + 1) + x,
                        0 <= y < th - 1,
                        0 <= x < tw,
                        tw >= 1,
                ;
                assert(a[text_pos(tw, y, x)] == prev[text_pos(tw, y, x)]);
            } else {
                assert(y == th - 1);
                assert(text_pos(tw, y, x) == prev.len() + 1 + x) by (nonlinear_arith)
                    requires
                        text_pos(tw, y, x) == y * (tw + 1) + x,
                        y == th - 1,
                        prev.len() == (th - 1) * (tw + 1) - 1,
                ;
                assert(a[prev.len() as int + 1 + x] == row[x]);
                assert(row[x] == cell_char(classes, (th - 1) * tw + x));
                assert(cell_at(tw, y, x) == (th - 1) * tw + x);
            }
        }
        assert forall|y: int| 0 <= y < th - 1 implies a[#[trigger] text_pos(tw, y, tw)] == '\n' by {
            if y < th - 2 {
                assert(text_pos(tw, y, tw) < (th - 1) * (tw + 1) - 1) by (nonlinear_arith)
                    requires
                        text_pos(tw, y, tw) == y * (tw + 1) + tw,
                        0 <= y < th - 2,
                        tw >= 1,
                ;
                assert(a[text_pos(tw, y, tw)] == prev[text_pos(tw, y, tw)]);
            } else {
                assert(y == th - 2);
                assert(text_pos(tw, y, tw) == prev.len()) by (nonlinear_arith)
                    requires
                        text_pos(tw, y, tw) == y * (tw + 1) + tw,
                        y == th - 2,
                        prev.len() == (th - 1) * (tw + 1) - 1,
                        tw >= 1,
                ;
                assert(a[prev.len() as int] == '\n');
            }
        }
    }
}

/// Law: a transparent pixel (alpha below 128) is rendered as the reserved
/// `.`, and an opaque pixel never is.
pub proof fn lemma_transparency(nq: color_quant::NeuQuant, pixels: Seq<u8>, n: int, k: int)
    requires
        0 <= k < n,
        4 * k + 3 < pixels.len(),
    ensures
        pixels[4 * k + 3] < 128 ==> cell_char(classes_of(nq, pixels, n), k) == '.',
        pixels[4 * k + 3] >= 128 ==> cell_char(classes_of(nq, pixels, n), k) != '.',
{
    lemma_alphabet_reserved();
    let classes = classes_of(nq, pixels, n);
    assert(classes[k] == cell_class(nq, pixels, k));
    if pixels[4 * k + 3] >= 128 {
        let i = classes[k]->0;
        let s2 = seen(classes, k + 1);
        assert(s2.contains(i));
        lemma_rank_index(s2, i);
    }
}

/// Law: the reserved `.` maps to no color, and every other palette entry
/// carries an alphabet character with a color; neither `.` nor the
/// overflow `?` is ever registered with a color.
pub proof fn lemma_reserved_entries(classes: Seq<Option<int>>, n: int, cmap: Seq<u8>)
    ensures
        palette_spec(classes, n, cmap)[0] == ('.', None::<Seq<char>>),
        forall|j: int|
            1 <= j < palette_spec(classes, n, cmap).len() ==> (#[trigger] palette_spec(
                classes,
                n,
                cmap,
            )[j]).0 == alphabet()[j - 1] && palette_spec(classes, n, cmap)[j].0 != '.'
                && palette_spec(classes, n, cmap)[j].0 != '?' && palette_spec(classes, n, cmap)[j].1
                is Some,
{
    lemma_alphabet_reserved();
}

/// Law: characters are assigned in first-occurrence order. The cell that
/// first shows the `p`-th distinct palette index of the row-major walk is
/// rendered as the `p`-th alphabet character while the alphabet lasts, and
/// as the overflow `?` for every later distinct index.
pub proof fn lemma_first_occurrence(classes: Seq<Option<int>>, k: int, i: int)
    requires
        0 <= k < classes.len(),
        classes[k] == Some(i),
        !seen(classes, k).contains(i),
    ensures
        cell_char(classes, k) == char_for_rank(seen(classes, k).len() as int),
        seen(classes, k).len() < 86 ==> cell_char(classes, k) == alphabet()[seen(
            classes,
            k,
        ).len() as int],
        seen(classes, k).len() >= 86 ==> cell_char(classes, k) == '?',
{
    let s = seen(classes, k);
    assert(seen(classes, k + 1) == s.push(i));
    lemma_rank_push_new(s, i);
}

/// Law: a palette index that has already been seen keeps its character:
/// every later cell showing the same index is rendered identically.
pub proof fn lemma_repeat_occurrence(classes: Seq<Option<int>>, k: int, i: int)
    requires
        0 <= k < classes.len(),
        classes[k] == Some(i),
        seen(classes, k).contains(i),
    ensures
        cell_char(classes, k) == char_for_rank(rank(seen(classes, k), i)),
{
    assert(seen(classes, k + 1) == seen(classes, k));
}

} // verus!
