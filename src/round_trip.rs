//! Parsing what is written gives back what was written: headers and data lines.

use vstd::prelude::*;

use crate::field::config::{
    check_positions, header_tokens, parse_header, scan_titles, split, valid_columns,
};
use crate::field::{lemma_title_round_trip, Field};
use crate::format::{
    find_from, guessed_missing, header_cell, is_delimiter_char, occurs_at, padding, parse_format,
    render_header, Dialect,
};
use crate::field::{field_at, lemma_catalog_index};
use crate::format::{missing_lookup, MissingValue};
use crate::record::{
    column_of, column_text, lemma_column_of, field_value, is_digits, join_cells, line_cells, line_values,
    optional_value, parse_line, render_line, text_for, value_cell, well_formed_record, RecordView,
    OPTIONAL_COUNT,
};
use crate::text::{spaces, spec_is_ascii_whitespace, spec_is_whitespace, trim, trim_end, trim_start};

verus! {

/// Letters, digits and the underscore: the characters of titles.
pub open spec fn is_title_char(c: char) -> bool {
    ('a' <= c && c <= 'z') || ('A' <= c && c <= 'Z') || ('0' <= c && c <= '9') || c == '_'
}

proof fn lemma_title_chars(f: Field)
    ensures
        f.spec_title().len() > 0,
        forall|k: int| 0 <= k < f.spec_title().len() ==> is_title_char(#[trigger] f.spec_title()[k]),
{
}

proof fn lemma_split_append(p: Seq<char>, c: Seq<char>, d: char)
    requires
        !c.contains(d),
    ensures
        split(p + c, d) == split(p, d).update(
            split(p, d).len() - 1,
            split(p, d).last() + c,
        ),
    decreases c.len(),
{
    lemma_split_len(p, d);
    if c.len() == 0 {
        assert(p + c =~= p);
        assert(split(p, d).last() + c =~= split(p, d).last());
        assert(split(p, d).update(split(p, d).len() - 1, split(p, d).last()) =~= split(p, d));
    } else {
        let c0 = c.drop_last();
        assert(!c0.contains(d)) by {
            if c0.contains(d) {
                let k = choose|k: int| 0 <= k < c0.len() && c0[k] == d;
                assert(c[k] == d);
            }
        }
        lemma_split_append(p, c0, d);
        assert((p + c).drop_last() =~= p + c0);
        assert((p + c).last() == c.last());
        assert(c.last() != d) by {
            assert(c[c.len() - 1] == c.last());
        }
        lemma_split_len(p + c0, d);
        assert(split(p + c, d) =~= split(p, d).update(
            split(p, d).len() - 1,
            split(p, d).last() + c,
        )) by {
            assert(split(p, d).last() + c0.push(c.last()) =~= split(p, d).last() + c);
            assert(c0.push(c.last()) =~= c);
        }
    }
}

proof fn lemma_split_len(s: Seq<char>, d: char)
    ensures
        split(s, d).len() >= 1,
    decreases s.len(),
{
    if s.len() > 0 {
        lemma_split_len(s.drop_last(), d);
    }
}

/// The cells of an aligned or condensed header.
pub open spec fn cells(fs: Seq<Field>, alignment: bool) -> Seq<Seq<char>> {
    fs.map_values(|f: Field| header_cell(f, alignment))
}

/// Whether no title among `fs` holds the character `d`.
pub open spec fn titles_free_of(fs: Seq<Field>, d: char) -> bool {
    forall|k: int| 0 <= k < fs.len() ==> !(#[trigger] fs[k]).spec_title().contains(d)
}

proof fn lemma_cell_free_of(f: Field, alignment: bool, d: char)
    requires
        !f.spec_title().contains(d),
        !(alignment && d == ' '),
    ensures
        !header_cell(f, alignment).contains(d),
{
    let t = f.spec_title();
    let c = header_cell(f, alignment);
    if c.contains(d) {
        let k = choose|k: int| 0 <= k < c.len() && c[k] == d;
        let p = padding(f);
        if !alignment {
            assert(t[k] == d);
        } else if f == Field::StationName {
            if k < t.len() {
                assert(c[k] == t[k]);
            } else {
                assert(c[k] == spaces(p)[k - t.len()]);
            }
        } else {
            if k < p {
                assert(c[k] == spaces(p)[k]);
            } else {
                assert(c[k] == t[k - p]);
            }
        }
    }
}

proof fn lemma_split_render(fs: Seq<Field>, d: char, alignment: bool)
    requires
        fs.len() >= 1,
        titles_free_of(fs, d),
        !(alignment && d == ' '),
    ensures
        split(render_header(fs, d, alignment), d) == cells(fs, alignment),
    decreases fs.len(),
{
    let c = header_cell(fs.last(), alignment);
    assert(fs.last() == fs[fs.len() - 1]);
    lemma_cell_free_of(fs.last(), alignment, d);
    assert(titles_free_of(fs.drop_last(), d)) by {
        assert forall|k: int| 0 <= k < fs.len() - 1 implies !(#[trigger] fs.drop_last()[k]).spec_title().contains(d) by {
            assert(fs.drop_last()[k] == fs[k]);
        }
    }
    if fs.len() == 1 {
        lemma_split_append(Seq::<char>::empty(), c, d);
        assert(Seq::<char>::empty() + c =~= c);
        assert(split(Seq::<char>::empty(), d) == seq![Seq::<char>::empty()]);
        assert(Seq::<char>::empty() + c =~= c);
        assert(cells(fs, alignment) =~= seq![c]);
        assert(split(c, d) =~= seq![c]);
    } else {
        let pre = render_header(fs.drop_last(), d, alignment);
        lemma_split_render(fs.drop_last(), d, alignment);
        lemma_split_append(pre.push(d), c, d);
        assert(pre.push(d).drop_last() =~= pre);
        lemma_split_len(pre, d);
        assert(split(pre.push(d), d) == split(pre, d).push(seq![]));
        assert(Seq::<char>::empty() + c =~= c);
        assert(cells(fs, alignment) =~= cells(fs.drop_last(), alignment).push(c));
        assert(split(render_header(fs, d, alignment), d) =~= cells(fs, alignment));
    }
}

proof fn lemma_trim_start_spaces(n: nat, t: Seq<char>)
    ensures
        trim_start(spaces(n) + t) == trim_start(t),
    decreases n,
{
    if n > 0 {
        let m = (n - 1) as nat;
        assert((spaces(n) + t).drop_first() =~= spaces(m) + t);
        assert((spaces(n) + t)[0] == ' ');
        lemma_trim_start_spaces(m, t);
    } else {
        assert(spaces(n) + t =~= t);
    }
}

proof fn lemma_trim_end_spaces(t: Seq<char>, n: nat)
    ensures
        trim_end(t + spaces(n)) == trim_end(t),
    decreases n,
{
    if n > 0 {
        let m = (n - 1) as nat;
        assert((t + spaces(n)).drop_last() =~= t + spaces(m));
        assert((t + spaces(n)).last() == ' ');
        lemma_trim_end_spaces(t, m);
    } else {
        assert(t + spaces(n) =~= t);
    }
}

proof fn lemma_trim_cell(f: Field, alignment: bool)
    ensures
        trim(header_cell(f, alignment)) == f.spec_title(),
{
    lemma_title_chars(f);
    let t = f.spec_title();
    assert(is_title_char(t[0]) && is_title_char(t.last()));
    assert(!spec_is_whitespace(t[0]) && !spec_is_whitespace(t.last()));
    assert(trim_start(t) == t);
    assert(trim_end(t) == t);
    if alignment {
        if f == Field::StationName {
            lemma_trim_end_spaces(t, padding(f));
        } else {
            lemma_trim_start_spaces(padding(f), t);
        }
    }
}

proof fn lemma_scan_titles(fs: Seq<Field>)
    requires
        fs.no_duplicates(),
    ensures
        scan_titles(fs.map_values(|f: Field| f.spec_title())) == Ok::<Seq<Field>, crate::error::HeaderFault>(fs),
    decreases fs.len(),
{
    let ts = fs.map_values(|f: Field| f.spec_title());
    if fs.len() == 0 {
        assert(fs =~= seq![]);
    } else {
        let pre = fs.drop_last();
        assert(pre.no_duplicates()) by {
            assert forall|i: int, j: int| 0 <= i < pre.len() && 0 <= j < pre.len() && i != j implies pre[i] != pre[j] by {
                assert(pre[i] == fs[i] && pre[j] == fs[j]);
            }
        }
        lemma_scan_titles(pre);
        assert(ts.drop_last() =~= pre.map_values(|f: Field| f.spec_title()));
        lemma_title_round_trip(fs.last());
        assert(!pre.contains(fs.last())) by {
            if pre.contains(fs.last()) {
                let k = choose|k: int| 0 <= k < pre.len() && pre[k] == fs.last();
                assert(fs[k] == fs[fs.len() - 1]);
            }
        }
        assert(pre.push(fs.last()) =~= fs);
    }
}

proof fn lemma_render_prefix(fs: Seq<Field>, d: char, alignment: bool, k: int)
    requires
        1 <= k <= fs.len(),
    ensures
        render_header(fs.subrange(0, k), d, alignment).len() <= render_header(fs, d, alignment).len(),
        render_header(fs, d, alignment).subrange(0, render_header(fs.subrange(0, k), d, alignment).len() as int)
            == render_header(fs.subrange(0, k), d, alignment),
    decreases fs.len() - k,
{
    let r = render_header(fs, d, alignment);
    if k == fs.len() {
        assert(fs.subrange(0, k) =~= fs);
        assert(r.subrange(0, r.len() as int) =~= r);
    } else {
        let pre = fs.drop_last();
        lemma_render_prefix(pre, d, alignment, k);
        assert(pre.subrange(0, k) =~= fs.subrange(0, k));
        let rp = render_header(pre, d, alignment);
        let rk = render_header(fs.subrange(0, k), d, alignment);
        assert(fs.len() >= 2);
        assert(r == rp.push(d) + header_cell(fs.last(), alignment));
        assert(r.subrange(0, rk.len() as int) =~= rp.subrange(0, rk.len() as int));
    }
}

proof fn lemma_first_occurrence(h: Seq<char>, p: Seq<char>, i: int, k: int)
    requires
        0 <= i <= k,
        occurs_at(h, p, k),
        forall|j: int| i <= j < k ==> !occurs_at(h, p, j),
    ensures
        find_from(h, p, i) == Some(k),
    decreases k - i,
{
    if i < k {
        lemma_first_occurrence(h, p, i + 1, k);
    }
}

/// The start of every valid header: `Time`, the delimiter, `StationNumber`.
spec fn opening(d: char, alignment: bool) -> Seq<char> {
    header_cell(Field::Time, alignment).push(d) + header_cell(Field::StationNumber, alignment)
}

proof fn lemma_opening(fs: Seq<Field>, d: char, alignment: bool)
    requires
        valid_columns(fs),
    ensures
        opening(d, alignment).len() <= render_header(fs, d, alignment).len(),
        forall|j: int|
            0 <= j < opening(d, alignment).len() ==> #[trigger] render_header(fs, d, alignment)[j]
                == opening(d, alignment)[j],
{
    let h = render_header(fs, d, alignment);
    let pre = opening(d, alignment);
    lemma_render_prefix(fs, d, alignment, 2);
    let two = fs.subrange(0, 2);
    assert(two.drop_last() =~= seq![Field::Time]);
    assert(two.last() == Field::StationNumber);
    assert(render_header(seq![Field::Time], d, alignment) == header_cell(Field::Time, alignment));
    assert(render_header(two, d, alignment) == pre);
    assert forall|j: int| 0 <= j < pre.len() implies #[trigger] h[j] == pre[j] by {
        assert(h.subrange(0, pre.len() as int)[j] == h[j]);
    }
}

proof fn lemma_opening_chars(d: char, alignment: bool)
    ensures
        ({
            let pre = opening(d, alignment);
            let ti: int = if alignment {
                8
            } else {
                0
            };
            &&& pre.len() == ti + 18
            &&& forall|j: int| 0 <= j < ti ==> #[trigger] pre[j] == ' '
            &&& pre.subrange(ti, ti + 4) == Field::Time.spec_title()
            &&& pre[ti + 4] == d
            &&& pre.subrange(ti + 5, ti + 18) == Field::StationNumber.spec_title()
        }),
{
    let ti: int = if alignment {
        8
    } else {
        0
    };
    let tt = Field::Time.spec_title();
    let st = Field::StationNumber.spec_title();
    let pre = opening(d, alignment);
    assert(header_cell(Field::Time, alignment) =~= spaces(ti as nat) + tt);
    assert(header_cell(Field::StationNumber, alignment) =~= st);
    assert(pre =~= (spaces(ti as nat) + tt).push(d) + st);
    assert(pre.subrange(ti, ti + 4) =~= tt);
    assert(pre.subrange(ti + 5, ti + 18) =~= st);
}

proof fn lemma_locate_columns(h: Seq<char>, d: char, alignment: bool)
    requires
        is_delimiter_char(d),
        opening(d, alignment).len() <= h.len(),
        forall|j: int| 0 <= j < opening(d, alignment).len() ==> #[trigger] h[j] == opening(d, alignment)[j],
    ensures
        ({
            let ti: int = if alignment {
                8
            } else {
                0
            };
            &&& find_from(h, Field::Time.spec_title(), 0) == Some(ti)
            &&& find_from(h, Field::StationNumber.spec_title(), 0) == Some(ti + 5)
            &&& h[ti + 4] == d
            &&& forall|j: int| 0 <= j < ti ==> spec_is_ascii_whitespace(#[trigger] h[j])
        }),
{
    let ti: int = if alignment {
        8
    } else {
        0
    };
    let tt = Field::Time.spec_title();
    let st = Field::StationNumber.spec_title();
    let pre = opening(d, alignment);
    lemma_opening_chars(d, alignment);
    assert(h.subrange(ti, ti + 4) =~= tt) by {
        assert forall|j: int| 0 <= j < 4 implies h.subrange(ti, ti + 4)[j] == tt[j] by {
            assert(h[ti + j] == pre[ti + j]);
            assert(pre.subrange(ti, ti + 4)[j] == pre[ti + j]);
        }
    }
    assert forall|j: int| 0 <= j < ti implies !occurs_at(h, tt, j) by {
        assert(h[j] == pre[j]);
        assert(h.subrange(j, j + 4)[0] == h[j]);
    }
    lemma_first_occurrence(h, tt, 0, ti);
    assert(h.subrange(ti + 5, ti + 18) =~= st) by {
        assert forall|j: int| 0 <= j < 13 implies h.subrange(ti + 5, ti + 18)[j] == st[j] by {
            assert(h[ti + 5 + j] == pre[ti + 5 + j]);
            assert(pre.subrange(ti + 5, ti + 18)[j] == pre[ti + 5 + j]);
        }
    }
    assert forall|j: int| 0 <= j < ti + 5 implies !occurs_at(h, st, j) by {
        assert(h[j] == pre[j]);
        if ti <= j < ti + 4 {
            assert(pre.subrange(ti, ti + 4)[j - ti] == pre[j]);
        }
        assert(h[j] != 'S');
        if j + 13 <= h.len() {
            assert(h.subrange(j, j + 13)[0] == h[j]);
        }
    }
    lemma_first_occurrence(h, st, 0, ti + 5);
    assert(h[ti + 4] == pre[ti + 4]);
    assert forall|j: int| 0 <= j < ti implies spec_is_ascii_whitespace(#[trigger] h[j]) by {
        assert(h[j] == pre[j]);
    }
}

proof fn lemma_parse_rendered_columns(fs: Seq<Field>, d: char, alignment: bool)
    requires
        valid_columns(fs),
        is_delimiter_char(d),
        titles_free_of(fs, d),
        !(alignment && d == ' '),
    ensures
        parse_header(render_header(fs, d, alignment), d) == Ok::<
            Seq<Field>,
            crate::error::HeaderFault,
        >(fs),
{
    let h = render_header(fs, d, alignment);
    let ti: int = if alignment {
        8
    } else {
        0
    };
    lemma_opening(fs, d, alignment);
    lemma_locate_columns(h, d, alignment);
    assert(h.contains(d)) by {
        assert(h[ti + 4] == d);
    }
    lemma_split_render(fs, d, alignment);
    let toks = header_tokens(h, d);
    assert(toks =~= fs.map_values(|g: Field| g.spec_title())) by {
        assert forall|k: int| 0 <= k < fs.len() implies toks[k] == fs[k].spec_title() by {
            lemma_trim_cell(fs[k], alignment);
        }
    }
    lemma_scan_titles(fs);
    assert(check_positions(fs) == Ok::<Seq<Field>, crate::error::HeaderFault>(fs));
}

/// Parsing the header that a format renders gives that format back, when no selected title
/// holds the delimiter, an aligned header is not separated by spaces, and `missing` is the
/// guessed one; so rendering the parsed format gives the same header again.
pub proof fn lemma_header_round_trip(f: Dialect)
    requires
        valid_columns(f.fields),
        is_delimiter_char(f.delimiter),
        titles_free_of(f.fields, f.delimiter),
        !(f.alignment && f.delimiter == ' '),
        f.missing == guessed_missing(f.alignment, f.delimiter),
    ensures
        parse_format(render_header(f.fields, f.delimiter, f.alignment)) == Ok::<
            Dialect,
            crate::error::HeaderFault,
        >(f),
{
    let h = render_header(f.fields, f.delimiter, f.alignment);
    lemma_opening(f.fields, f.delimiter, f.alignment);
    lemma_locate_columns(h, f.delimiter, f.alignment);
    lemma_parse_rendered_columns(f.fields, f.delimiter, f.alignment);
    assert(padding(Field::Time) == 8);
}

proof fn lemma_split_join(cs: Seq<Seq<char>>, d: char)
    requires
        cs.len() >= 1,
        forall|k: int| 0 <= k < cs.len() ==> !(#[trigger] cs[k]).contains(d),
    ensures
        split(join_cells(cs, d), d) == cs,
    decreases cs.len(),
{
    let c = cs.last();
    assert(!c.contains(d));
    if cs.len() == 1 {
        lemma_split_append(Seq::<char>::empty(), c, d);
        assert(Seq::<char>::empty() + c =~= c);
        assert(split(Seq::<char>::empty(), d) == seq![Seq::<char>::empty()]);
        assert(cs =~= seq![c]);
        assert(split(c, d) =~= seq![c]);
    } else {
        let pre = join_cells(cs.drop_last(), d);
        lemma_split_join(cs.drop_last(), d);
        lemma_split_append(pre.push(d), c, d);
        assert(pre.push(d).drop_last() =~= pre);
        lemma_split_len(pre, d);
        assert(split(pre.push(d), d) == split(pre, d).push(seq![]));
        assert(Seq::<char>::empty() + c =~= c);
        assert(cs =~= cs.drop_last().push(c));
        assert(split(join_cells(cs, d), d) =~= cs);
    }
}

proof fn lemma_missing_text(m: MissingValue)
    ensures
        missing_lookup(m.spec_text()) == Some(m),
{
    reveal_strlit("-999");
    reveal_strlit("null");
    reveal_strlit("NULL");
    reveal_strlit("Null");
    reveal_strlit("");
    assert("null"@[0] != "-999"@[0]);
    assert(""@.len() != "-999"@.len());
    assert(""@.len() != "null"@.len());
    assert(""@.len() != "NULL"@.len());
    assert(""@.len() != "Null"@.len());
}

/// Whether record `r` can be written in format `f` and read back: `Time` and
/// `StationNumber` are digits, only selected fields have values, no value is a missing-value
/// text (as in every `RawRecord`), and no cell holds the delimiter or, when aligned, surrounding whitespace of its own.
pub open spec fn writable(r: RecordView, f: Dialect) -> bool {
    &&& valid_columns(f.fields)
    &&& is_digits(r.time)
    &&& is_digits(r.station_number)
    &&& well_formed_record(r)
    &&& forall|i: int|
        0 <= i < OPTIONAL_COUNT ==> (#[trigger] r.values[i] is Some ==> f.fields.contains(
            field_at(i + 2),
        ))
    &&& forall|k: int|
        0 <= k < f.fields.len() ==> !(#[trigger] line_cells(r, f)[k]).contains(f.delimiter)
    &&& f.alignment ==> forall|k: int|
        0 <= k < f.fields.len() ==> trim(#[trigger] line_cells(r, f)[k]) == text_for(
            r,
            f.fields[k],
            f.missing,
        )
}

/// Reading the data line that a record is written as gives the record back.
pub proof fn lemma_line_round_trip(r: RecordView, f: Dialect)
    requires
        writable(r, f),
    ensures
        parse_line(render_line(r, f), f) == Some(r),
{
    let fs = f.fields;
    let d = f.delimiter;
    let cs = line_cells(r, f);
    let h = render_line(r, f);
    lemma_split_join(cs, d);
    let vs = line_values(h, d, f.alignment);
    assert forall|k: int| 0 <= k < fs.len() implies #[trigger] vs[k] == text_for(
        r,
        fs[k],
        f.missing,
    ) by {
        if !f.alignment {
            assert(cs[k] == value_cell(text_for(r, fs[k], f.missing), fs[k], false));
        }
    }
    lemma_column_of(fs, 0);
    lemma_column_of(fs, 1);
    assert(vs[0] == r.time);
    assert(vs[1] == r.station_number);
    lemma_catalog_index();
    let parsed = Seq::new(
        OPTIONAL_COUNT as nat,
        |i: int| optional_value(column_text(vs, fs, field_at(i + 2), fs.len() as int)),
    );
    assert forall|i: int| 0 <= i < OPTIONAL_COUNT implies parsed[i] == r.values[i] by {
        let g = field_at(i + 2);
        assert(g.ord() == i + 2);
        assert(g != Field::Time && g != Field::StationNumber);
        assert(field_value(r, g) == r.values[i]);
        if fs.contains(g) {
            let c = column_of(fs, g);
            assert(fs[c] == g);
            assert(vs[c] == text_for(r, g, f.missing));
            if r.values[i] is None {
                lemma_missing_text(f.missing);
            }
        }
    }
    assert(parsed =~= r.values);
}

} // verus!
