//! Selecting an ordered subset of the catalog, from category flags or from a header line.

use vstd::prelude::*;

use crate::error::{HeaderFault, ParseFieldError, ParseFieldFilterError, ParseHeaderError};
use crate::field::{field_at, lemma_catalog_index, title_lookup, Field, FieldType, FIELD_COUNT};
use crate::format::Delimiter;
use crate::text::{chars_of, string_from_chars, trim, trim_range};

verus! {

/// Fields to add to, and to take out of, a selection by category.
#[derive(Clone, Debug, PartialEq, Eq)]
pub struct FieldFilter {
    pub including: Vec<Field>,
    pub excluding: Vec<Field>,
}

/// Whether the categories chosen by the flags take `f` in.
pub open spec fn included_by_category(f: Field, info: bool, values: bool, q: bool, eor: bool) -> bool {
    match f.category() {
        FieldType::Mandatory => true,
        FieldType::Info => info,
        FieldType::Value => values,
        FieldType::Q => q,
        FieldType::EOR => eor,
    }
}

/// Whether `f` is selected: by its category, unless the filter overrides that.
pub open spec fn is_selected(
    f: Field,
    info: bool,
    values: bool,
    q: bool,
    eor: bool,
    filter: Option<&FieldFilter>,
) -> bool {
    let pre = included_by_category(f, info, values, q, eor);
    match filter {
        Some(fl) => if pre {
            !fl.excluding@.contains(f)
        } else {
            fl.including@.contains(f)
        },
        None => pre,
    }
}

/// The selected fields among the first `n` of the catalog, in catalog order.
pub open spec fn selection(
    n: int,
    info: bool,
    values: bool,
    q: bool,
    eor: bool,
    filter: Option<&FieldFilter>,
) -> Seq<Field>
    decreases n,
{
    if n <= 0 {
        seq![]
    } else {
        let s = selection(n - 1, info, values, q, eor, filter);
        if is_selected(field_at(n - 1), info, values, q, eor, filter) {
            s.push(field_at(n - 1))
        } else {
            s
        }
    }
}

/// The pieces of `s` between occurrences of `d`: one more than there are occurrences.
pub open spec fn split(s: Seq<char>, d: char) -> Seq<Seq<char>>
    decreases s.len(),
{
    if s.len() == 0 {
        seq![seq![]]
    } else {
        let pre = split(s.drop_last(), d);
        if s.last() == d {
            pre.push(seq![])
        } else {
            pre.update(pre.len() - 1, pre.last().push(s.last()))
        }
    }
}

/// The tokens of a header: its pieces between delimiters, each trimmed.
pub open spec fn header_tokens(h: Seq<char>, d: char) -> Seq<Seq<char>> {
    split(h, d).map_values(|t: Seq<char>| trim(t))
}

/// Reads titles in order; fails at the first unknown title or the first repeated one.
pub open spec fn scan_titles(toks: Seq<Seq<char>>) -> Result<Seq<Field>, HeaderFault>
    decreases toks.len(),
{
    if toks.len() == 0 {
        Ok(seq![])
    } else {
        match scan_titles(toks.drop_last()) {
            Err(e) => Err(e),
            Ok(fs) => match title_lookup(toks.last()) {
                None => Err(HeaderFault::UnknownField(toks.last())),
                Some(f) => if fs.contains(f) {
                    Err(HeaderFault::FoundDuplicates(toks.last()))
                } else {
                    Ok(fs.push(f))
                },
            },
        }
    }
}

/// The positional rules: `Time` first, `StationNumber` second, `EOR` last if present.
pub open spec fn check_positions(fs: Seq<Field>) -> Result<Seq<Field>, HeaderFault> {
    if fs.len() == 0 || fs[0] != Field::Time {
        Err(HeaderFault::MissingTime)
    } else if fs.len() < 2 || fs[1] != Field::StationNumber {
        Err(HeaderFault::MissingStationNumber)
    } else if exists|i: int| 0 <= i < fs.len() - 1 && fs[i] == Field::EOR {
        Err(HeaderFault::InvalidEorPosition)
    } else {
        Ok(fs)
    }
}

/// The fields that header `h` lists with delimiter `d`, or why it lists none.
pub open spec fn parse_header(h: Seq<char>, d: char) -> Result<Seq<Field>, HeaderFault> {
    if !h.contains(d) {
        Err(HeaderFault::FoundNoDelimiters)
    } else {
        match scan_titles(header_tokens(h, d)) {
            Err(e) => Err(e),
            Ok(fs) => check_positions(fs),
        }
    }
}

/// The fields that the titles `toks` name, or the first title that names none.
pub open spec fn lookup_titles(toks: Seq<Seq<char>>) -> Result<Seq<Field>, Seq<char>>
    decreases toks.len(),
{
    if toks.len() == 0 {
        Ok(seq![])
    } else {
        match lookup_titles(toks.drop_last()) {
            Err(t) => Err(t),
            Ok(fs) => match title_lookup(toks.last()) {
                None => Err(toks.last()),
                Some(f) => Ok(fs.push(f)),
            },
        }
    }
}

/// The fields of a comma-separated list of titles; an absent or empty list names none.
pub open spec fn parse_field_list(s: Option<Seq<char>>) -> Result<Seq<Field>, Seq<char>> {
    match s {
        None => Ok(seq![]),
        Some(t) => if t.len() == 0 {
            Ok(seq![])
        } else {
            lookup_titles(header_tokens(t, ','))
        },
    }
}

pub open spec fn opt_str_view(s: Option<&str>) -> Option<Seq<char>> {
    match s {
        Some(t) => Some(t@),
        None => None,
    }
}

proof fn lemma_lookup_prefix_err(toks: Seq<Seq<char>>, k: int)
    requires
        0 <= k <= toks.len(),
        lookup_titles(toks.subrange(0, k)) is Err,
    ensures
        lookup_titles(toks) == lookup_titles(toks.subrange(0, k)),
    decreases toks.len() - k,
{
    if k < toks.len() {
        assert(toks.subrange(0, k + 1).drop_last() =~= toks.subrange(0, k));
        lemma_lookup_prefix_err(toks, k + 1);
    } else {
        assert(toks.subrange(0, k) =~= toks);
    }
}

/// Parses a comma-separated list of titles.
fn field_list(s: Option<&str>) -> (r: Result<Vec<Field>, ParseFieldError>)
    ensures
        match r {
            Ok(v) => parse_field_list(opt_str_view(s)) == Ok::<Seq<Field>, Seq<char>>(v@),
            Err(e) => parse_field_list(opt_str_view(s)) == Err::<Seq<Field>, Seq<char>>(e.0@),
        },
{
    let text = match s {
        None => return Ok(Vec::new()),
        Some(t) => t,
    };
    let h = chars_of(text);
    if h.len() == 0 {
        return Ok(Vec::new());
    }
    let bounds = split_bounds(&h, ',');
    let ghost toks = header_tokens(h@, ',');
    let mut fields: Vec<Field> = Vec::new();
    let mut k: usize = 0;
    while k < bounds.len()
        invariant
            h@ == text@,
            opt_str_view(s) == Some(text@),
            h@.len() > 0,
            pieces(h@, bounds@) == split(h@, ','),
            forall|j: int| 0 <= j < bounds@.len() ==> #[trigger] bounds@[j].0 <= bounds@[j].1
                <= h@.len(),
            toks == header_tokens(h@, ','),
            toks.len() == bounds@.len(),
            k <= bounds@.len(),
            lookup_titles(toks.subrange(0, k as int)) == Ok::<Seq<Field>, Seq<char>>(fields@),
        decreases bounds.len() - k,
    {
        let (a, b) = bounds[k];
        let (ta, tb) = trim_range(&h, a, b);
        proof {
            assert(pieces(h@, bounds@)[k as int] == h@.subrange(a as int, b as int));
            assert(toks[k as int] == h@.subrange(ta as int, tb as int));
            assert(toks.subrange(0, k + 1).drop_last() =~= toks.subrange(0, k as int));
            assert(toks.subrange(0, k + 1).last() == toks[k as int]);
        }
        match Field::from_chars(&h, ta, tb) {
            None => {
                let t = string_from_chars(&h, ta, tb);
                proof {
                    assert(lookup_titles(toks.subrange(0, k + 1)) == Err::<Seq<Field>, Seq<char>>(
                        toks[k as int],
                    ));
                    lemma_lookup_prefix_err(toks, k + 1);
                    assert(opt_str_view(s) == Some(h@));
                }
                return Err(ParseFieldError(t));
            },
            Some(f) => fields.push(f),
        }
        k = k + 1;
    }
    proof {
        assert(toks.subrange(0, k as int) =~= toks);
    }
    Ok(fields)
}

/// A valid column list: `Time` first, `StationNumber` second, no field twice, `EOR` only last.
pub open spec fn valid_columns(s: Seq<Field>) -> bool {
    &&& s.len() >= 2
    &&& s[0] == Field::Time
    &&& s[1] == Field::StationNumber
    &&& s.no_duplicates()
    &&& forall|i: int| 0 <= i < s.len() - 1 ==> s[i] != Field::EOR
}

/// The pieces of `h` that the bounds in `b` delimit.
pub open spec fn pieces(h: Seq<char>, b: Seq<(usize, usize)>) -> Seq<Seq<char>> {
    b.map_values(|p: (usize, usize)| h.subrange(p.0 as int, p.1 as int))
}

proof fn lemma_scan_distinct(toks: Seq<Seq<char>>)
    ensures
        scan_titles(toks) matches Ok(fs) ==> fs.no_duplicates(),
    decreases toks.len(),
{
    if toks.len() > 0 {
        lemma_scan_distinct(toks.drop_last());
    }
}

proof fn lemma_scan_prefix_err(toks: Seq<Seq<char>>, k: int)
    requires
        0 <= k <= toks.len(),
        scan_titles(toks.subrange(0, k)) is Err,
    ensures
        scan_titles(toks) == scan_titles(toks.subrange(0, k)),
    decreases toks.len() - k,
{
    if k < toks.len() {
        assert(toks.subrange(0, k + 1).drop_last() =~= toks.subrange(0, k));
        lemma_scan_prefix_err(toks, k + 1);
    } else {
        assert(toks.subrange(0, k) =~= toks);
    }
}

proof fn lemma_selection_distinct(
    n: int,
    info: bool,
    values: bool,
    q: bool,
    eor: bool,
    filter: Option<&FieldFilter>,
)
    requires
        n <= FIELD_COUNT,
    ensures
        selection(n, info, values, q, eor, filter).no_duplicates(),
        forall|i: int|
            0 <= i < selection(n, info, values, q, eor, filter).len() ==> #[trigger] selection(
                n,
                info,
                values,
                q,
                eor,
                filter,
            )[i].ord() < n,
    decreases n,
{
    if n > 0 {
        lemma_selection_distinct(n - 1, info, values, q, eor, filter);
        lemma_catalog_index();
        assert(field_at(n - 1).ord() == n - 1);
    }
}

/// With every category chosen and no filter, the selection is the catalog, in order.
pub proof fn lemma_select_all(n: int)
    requires
        0 <= n <= FIELD_COUNT,
    ensures
        selection(n, true, true, true, true, None) == Seq::new(n as nat, |i: int| field_at(i)),
    decreases n,
{
    if n > 0 {
        lemma_select_all(n - 1);
        assert(Seq::new(n as nat, |i: int| field_at(i)) =~= Seq::new(
            (n - 1) as nat,
            |i: int| field_at(i),
        ).push(field_at(n - 1)));
    } else {
        assert(Seq::new(0, |i: int| field_at(i)) =~= Seq::<Field>::empty());
    }
}

/// A header that parses lists a valid column list.
pub proof fn lemma_parsed_columns_valid(h: Seq<char>, d: char)
    ensures
        parse_header(h, d) matches Ok(fs) ==> valid_columns(fs),
{
    lemma_scan_distinct(header_tokens(h, d));
}

/// Bounds of the pieces of `h` between occurrences of `d`.
pub(crate) fn split_bounds(h: &Vec<char>, d: char) -> (r: Vec<(usize, usize)>)
    ensures
        pieces(h@, r@) == split(h@, d),
        forall|k: int| 0 <= k < r@.len() ==> #[trigger] r@[k].0 <= r@[k].1 <= h@.len(),
{
    let n = h.len();
    let mut bounds: Vec<(usize, usize)> = Vec::new();
    let mut start: usize = 0;
    let mut i: usize = 0;
    proof {
        assert(h@.subrange(0, 0) =~= Seq::<char>::empty());
        assert(split(Seq::<char>::empty(), d) == seq![Seq::<char>::empty()]);
        assert(pieces(h@, bounds@) =~= Seq::<Seq<char>>::empty());
        assert(pieces(h@, bounds@).push(h@.subrange(0, 0)) =~= split(h@.subrange(0, 0), d));
    }
    while i < n
        invariant
            n == h@.len(),
            start <= i <= n,
            forall|k: int| 0 <= k < bounds@.len() ==> #[trigger] bounds@[k].0 <= bounds@[k].1 <= n,
            pieces(h@, bounds@).push(h@.subrange(start as int, i as int)) == split(
                h@.subrange(0, i as int),
                d,
            ),
        decreases n - i,
    {
        proof {
            assert(h@.subrange(0, i + 1).drop_last() =~= h@.subrange(0, i as int));
        }
        if h[i] == d {
            let ghost old_bounds = bounds@;
            bounds.push((start, i));
            start = i + 1;
            proof {
                assert forall|k: int| 0 <= k < bounds@.len() implies #[trigger] bounds@[k].0
                    <= bounds@[k].1 <= n by {
                    if k < old_bounds.len() {
                        assert(bounds@[k] == old_bounds[k]);
                    }
                }
                assert(h@.subrange(start as int, i + 1) =~= Seq::<char>::empty());
                assert(bounds@[bounds@.len() - 1].1 <= n);
                assert(pieces(h@, bounds@).push(h@.subrange(start as int, i + 1)) =~= split(
                    h@.subrange(0, i + 1),
                    d,
                ));
            }
        } else {
            proof {
                assert(h@.subrange(start as int, i + 1) =~= h@.subrange(
                    start as int,
                    i as int,
                ).push(h@[i as int]));
                assert(pieces(h@, bounds@).push(h@.subrange(start as int, i + 1)) =~= split(
                    h@.subrange(0, i + 1),
                    d,
                ));
            }
        }
        i = i + 1;
    }
    bounds.push((start, n));
    proof {
        assert(h@.subrange(0, n as int) =~= h@);
        assert(pieces(h@, bounds@) =~= split(h@, d));
    }
    bounds
}

fn contains_field(v: &Vec<Field>, f: Field) -> (r: bool)
    ensures
        r == v@.contains(f),
{
    let mut i: usize = 0;
    while i < v.len()
        invariant
            i <= v@.len(),
            forall|j: int| 0 <= j < i ==> v@[j] != f,
        decreases v.len() - i,
    {
        if v[i] == f {
            return true;
        }
        i = i + 1;
    }
    false
}

/// Stores a list of selected fields, in column order.
///
/// For reading, these are the fields that must be present in the input; for writing, they
/// select the columns.
#[derive(Debug, PartialEq, Eq)]
pub struct FieldConfig {
    fields: Vec<Field>,
}

impl View for FieldConfig {
    type V = Seq<Field>;

    closed spec fn view(&self) -> Seq<Field> {
        self.fields@
    }
}

impl FieldConfig {
    #[verifier::type_invariant]
    spec fn distinct(self) -> bool {
        self.fields@.no_duplicates()
    }

    /// All fields selected (i.e. no filter).
    pub fn new_with_all() -> (r: Self)
        ensures
            r@ == selection(FIELD_COUNT as int, true, true, true, true, None),
    {
        Self::new(true, true, true, true, None)
    }

    /// Selects fields by category and an optional filter, in catalog order.
    ///
    /// `Time` and `StationNumber` are mandatory and selected unless the filter excludes them.
    /// - `info`: `StationName`, `Latitude`, `Longitude`, `Elevation`.
    /// - `values`: the columns with measurement data.
    /// - `q`: the quality flag of each value column.
    /// - `eor`: the end-of-record marker column.
    pub fn new(info: bool, values: bool, q: bool, eor: bool, filter: Option<&FieldFilter>) -> (r:
        Self)
        ensures
            r@ == selection(FIELD_COUNT as int, info, values, q, eor, filter),
    {
        let mut fields: Vec<Field> = Vec::new();
        let mut i: usize = 0;
        while i < FIELD_COUNT
            invariant
                i <= FIELD_COUNT,
                fields@ == selection(i as int, info, values, q, eor, filter),
            decreases FIELD_COUNT - i,
        {
            let f = Field::from_index(i);
            let pre = match f.field_type() {
                FieldType::Mandatory => true,
                FieldType::Info => info,
                FieldType::Value => values,
                FieldType::Q => q,
                FieldType::EOR => eor,
            };
            let keep = match filter {
                Some(fl) => if pre {
                    !contains_field(&fl.excluding, f)
                } else {
                    contains_field(&fl.including, f)
                },
                None => pre,
            };
            if keep {
                fields.push(f);
            }
            i = i + 1;
        }
        proof {
            lemma_selection_distinct(FIELD_COUNT as int, info, values, q, eor, filter);
        }
        FieldConfig { fields }
    }

    /// Parses a header line into the fields that it lists.
    pub fn from_header(header: &str, delim: Delimiter) -> (r: Result<Self, ParseHeaderError>)
        ensures
            match r {
                Ok(c) => parse_header(header@, delim@) == Ok::<Seq<Field>, HeaderFault>(c@),
                Err(e) => parse_header(header@, delim@) == Err::<Seq<Field>, HeaderFault>(e@),
            },
    {
        let d = delim.as_char();
        let h = chars_of(header);
        let n = h.len();

        let mut i: usize = 0;
        while i < n && h[i] != d
            invariant
                n == h@.len(),
                i <= n,
                forall|j: int| 0 <= j < i ==> h@[j] != d,
            decreases n - i,
        {
            i = i + 1;
        }
        if i == n {
            return Err(ParseHeaderError::FoundNoDelimiters);
        }
        assert(h@.contains(d));

        let bounds = split_bounds(&h, d);
        let ghost toks = header_tokens(h@, d);

        let mut fields: Vec<Field> = Vec::new();
        let mut k: usize = 0;
        while k < bounds.len()
            invariant
                n == h@.len(),
                h@ == header@,
                h@.contains(d),
                d == delim@,
                k <= bounds@.len(),
                forall|j: int| 0 <= j < bounds@.len() ==> #[trigger] bounds@[j].0 <= bounds@[j].1 <= n,
                pieces(h@, bounds@) == split(h@, d),
                toks == header_tokens(h@, d),
                toks.len() == bounds@.len(),
                scan_titles(toks.subrange(0, k as int)) == Ok::<Seq<Field>, HeaderFault>(
                    fields@,
                ),
            decreases bounds.len() - k,
        {
            let (a, b) = bounds[k];
            let (ta, tb) = trim_range(&h, a, b);
            proof {
                assert(toks[k as int] == trim(h@.subrange(a as int, b as int)));
                assert(toks.subrange(0, k + 1).drop_last() =~= toks.subrange(0, k as int));
                assert(toks.subrange(0, k + 1).last() == toks[k as int]);
            }
            match Field::from_chars(&h, ta, tb) {
                None => {
                    let t = string_from_chars(&h, ta, tb);
                    proof {
                        lemma_scan_prefix_err(toks, k + 1);
                    }
                    return Err(ParseHeaderError::UnknownField(ParseFieldError(t)));
                },
                Some(f) => {
                    if contains_field(&fields, f) {
                        let t = string_from_chars(&h, ta, tb);
                        proof {
                            lemma_scan_prefix_err(toks, k + 1);
                        }
                        return Err(ParseHeaderError::FoundDuplicates(t));
                    }
                    fields.push(f);
                },
            }
            k = k + 1;
        }
        proof {
            assert(toks.subrange(0, k as int) =~= toks);
        }

        if fields.len() == 0 || fields[0] != Field::Time {
            return Err(ParseHeaderError::MissingTime);
        }
        if fields.len() < 2 || fields[1] != Field::StationNumber {
            return Err(ParseHeaderError::MissingStationNumber);
        }
        let last = fields.len() - 1;
        let mut j: usize = 0;
        assert(parse_header(header@, delim@) == check_positions(fields@));
        while j < last
            invariant
                parse_header(header@, delim@) == check_positions(fields@),
                fields@.len() >= 2 && fields@[0] == Field::Time && fields@[1]
                    == Field::StationNumber,
                last == fields@.len() - 1,
                j <= last,
                forall|m: int| 0 <= m < j ==> fields@[m] != Field::EOR,
            decreases last - j,
        {
            if fields[j] == Field::EOR {
                return Err(ParseHeaderError::InvalidEorPosition);
            }
            j = j + 1;
        }
        proof {
            lemma_parsed_columns_valid(header@, delim@);
        }
        Ok(FieldConfig { fields })
    }

    /// The selected fields, in column order.
    pub fn fields(&self) -> (r: &Vec<Field>)
        ensures
            r@ == self@,
            r@.no_duplicates(),
    {
        proof {
            use_type_invariant(self);
        }
        &self.fields
    }
}

impl Clone for FieldConfig {
    fn clone(&self) -> (r: FieldConfig)
        ensures
            r@ == self@,
    {
        proof {
            use_type_invariant(self);
        }
        let mut fields: Vec<Field> = Vec::new();
        let mut i: usize = 0;
        while i < self.fields.len()
            invariant
                i <= self.fields@.len(),
                self.fields@.no_duplicates(),
                fields@ == self.fields@.subrange(0, i as int),
            decreases self.fields.len() - i,
        {
            fields.push(self.fields[i]);
            i = i + 1;
            assert(fields@ =~= self.fields@.subrange(0, i as int));
        }
        assert(fields@ =~= self.fields@);
        FieldConfig { fields }
    }
}

impl Default for FieldConfig {
    /// All fields selected, as `new_with_all`.
    fn default() -> (r: FieldConfig)
        ensures
            r@ == selection(FIELD_COUNT as int, true, true, true, true, None),
    {
        Self::new_with_all()
    }
}

impl FieldFilter {
    /// A filter from the fields to include and to exclude; none when both are empty.
    pub fn new(include_set: Vec<Field>, exclude_set: Vec<Field>) -> (r: Option<Self>)
        ensures
            match r {
                Some(fl) => fl.including@ == include_set@ && fl.excluding@ == exclude_set@ && (
                include_set@.len() > 0 || exclude_set@.len() > 0),
                None => include_set@.len() == 0 && exclude_set@.len() == 0,
            },
    {
        if include_set.len() == 0 && exclude_set.len() == 0 {
            None
        } else {
            Some(FieldFilter { including: include_set, excluding: exclude_set })
        }
    }

    /// Parses two comma-separated lists of titles, the fields to include and to exclude.
    /// Fails on the first title that names no field; gives no filter when both are empty.
    pub fn from_strs(including_list: Option<&str>, excluding_list: Option<&str>) -> (r: Result<
        Option<Self>,
        ParseFieldFilterError,
    >)
        ensures
            match (parse_field_list(opt_str_view(including_list)), parse_field_list(
                opt_str_view(excluding_list),
            )) {
                (Err(t), _) => r matches Err(e) && e.0.0@ == t,
                (Ok(_), Err(t)) => r matches Err(e) && e.0.0@ == t,
                (Ok(inc), Ok(exc)) => if inc.len() == 0 && exc.len() == 0 {
                    r matches Ok(None)
                } else {
                    r matches Ok(Some(fl)) && fl.including@ == inc && fl.excluding@ == exc
                },
            },
    {
        let including = match field_list(including_list) {
            Ok(v) => v,
            Err(e) => return Err(ParseFieldFilterError(e)),
        };
        let excluding = match field_list(excluding_list) {
            Ok(v) => v,
            Err(e) => return Err(ParseFieldFilterError(e)),
        };
        Ok(FieldFilter::new(including, excluding))
    }
}

} // verus!
