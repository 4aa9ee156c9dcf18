//! The `repr` hints of a reflected enum, read from the attributes of its
//! declaration and kept in one canonical order without repetition.

use vstd::prelude::*;

use crate::constant::lex_literal;
use crate::constant::parse_unsigned_decimal;
use crate::constant::unsigned_decimal;
use crate::constant::LiteralIr;
use crate::constant::LiteralView;
use crate::constant::literal_reading_of;
use crate::context::repr_integer_name;
use crate::context::EnumReprIr;
use crate::ir::DelimiterIr;
use crate::ir::TokenTreeIr;
use crate::ir::TypeDeclarationIr;
use crate::ir::VariantKindIr;
use crate::substitution::lemma_tokens_view_index;
use crate::substitution::token_text;
use crate::substitution::tokens_text;
use crate::substitution::tokens_view;
use crate::substitution::TokenView;
use crate::text::str_eq;

verus! {

// ---------------------------------------------------------------------------
// Canonical order
// ---------------------------------------------------------------------------

/// The position of a representation's kind in declaration order of
/// [`EnumReprIr`].
pub open spec fn repr_kind_rank(repr: EnumReprIr) -> int {
    match repr {
        EnumReprIr::Rust => 0,
        EnumReprIr::C => 1,
        EnumReprIr::Transparent => 2,
        EnumReprIr::I8 => 3,
        EnumReprIr::I16 => 4,
        EnumReprIr::I32 => 5,
        EnumReprIr::I64 => 6,
        EnumReprIr::I128 => 7,
        EnumReprIr::Isize => 8,
        EnumReprIr::U8 => 9,
        EnumReprIr::U16 => 10,
        EnumReprIr::U32 => 11,
        EnumReprIr::U64 => 12,
        EnumReprIr::U128 => 13,
        EnumReprIr::Usize => 14,
        EnumReprIr::Align(_) => 15,
    }
}

/// The alignment of an `align(..)` hint, zero for the others.
pub open spec fn repr_alignment(repr: EnumReprIr) -> int {
    match repr {
        EnumReprIr::Align(alignment) => alignment as int,
        _ => 0,
    }
}

/// The canonical order: by kind in declaration order, then by alignment.
pub open spec fn repr_precedes(first: EnumReprIr, second: EnumReprIr) -> bool {
    ||| repr_kind_rank(first) < repr_kind_rank(second)
    ||| (repr_kind_rank(first) == repr_kind_rank(second) && repr_alignment(first) < repr_alignment(second))
}

/// Whether hints are in canonical order, each one once.
pub open spec fn canonically_ordered(reprs: Seq<EnumReprIr>) -> bool {
    forall|i: int, j: int| 0 <= i < j < reprs.len() ==> repr_precedes(#[trigger] reprs[i], #[trigger] reprs[j])
}

proof fn lemma_same_rank_is_equal(first: EnumReprIr, second: EnumReprIr)
    requires
        !repr_precedes(first, second),
        !repr_precedes(second, first),
    ensures
        first == second,
{
}

fn rank_of(repr: EnumReprIr) -> (rank: (u8, usize))
    ensures
        rank.0 == repr_kind_rank(repr),
        rank.1 == repr_alignment(repr),
{
    match repr {
        EnumReprIr::Rust => (0, 0),
        EnumReprIr::C => (1, 0),
        EnumReprIr::Transparent => (2, 0),
        EnumReprIr::I8 => (3, 0),
        EnumReprIr::I16 => (4, 0),
        EnumReprIr::I32 => (5, 0),
        EnumReprIr::I64 => (6, 0),
        EnumReprIr::I128 => (7, 0),
        EnumReprIr::Isize => (8, 0),
        EnumReprIr::U8 => (9, 0),
        EnumReprIr::U16 => (10, 0),
        EnumReprIr::U32 => (11, 0),
        EnumReprIr::U64 => (12, 0),
        EnumReprIr::U128 => (13, 0),
        EnumReprIr::Usize => (14, 0),
        EnumReprIr::Align(alignment) => (15, alignment),
    }
}

/// Returns whether `first` comes before `second` in the canonical order.
pub fn precedes(first: EnumReprIr, second: EnumReprIr) -> (result: bool)
    ensures
        result == repr_precedes(first, second),
{
    let (first_kind, first_alignment) = rank_of(first);
    let (second_kind, second_alignment) = rank_of(second);
    first_kind < second_kind || (first_kind == second_kind && first_alignment < second_alignment)
}

/// Adds a hint to canonically ordered hints, unless it is already there.
pub fn insert_canonically(reprs: &mut Vec<EnumReprIr>, repr: EnumReprIr)
    requires
        canonically_ordered(old(reprs)@),
    ensures
        canonically_ordered(final(reprs)@),
        forall|candidate: EnumReprIr|
            final(reprs)@.contains(candidate) <==> (old(reprs)@.contains(candidate) || candidate == repr),
{
    let mut position: usize = 0;
    while position < reprs.len() && precedes(reprs[position], repr)
        invariant
            position <= reprs.len(),
            forall|i: int| 0 <= i < position ==> repr_precedes(#[trigger] reprs@[i], repr),
        decreases reprs.len() - position,
    {
        position += 1;
    }
    if position < reprs.len() && reprs[position] == repr {
        return;
    }
    proof {
        if position < reprs.len() {
            assert(!repr_precedes(reprs@[position as int], repr));
            if !repr_precedes(repr, reprs@[position as int]) {
                lemma_same_rank_is_equal(reprs@[position as int], repr);
            }
        }
    }
    let ghost before = reprs@;
    reprs.insert(position, repr);
    proof {
        let after = reprs@;
        assert(after =~= before.subrange(0, position as int).push(repr) + before.subrange(
            position as int,
            before.len() as int,
        ));
        assert forall|i: int, j: int| 0 <= i < j < after.len() implies repr_precedes(
            #[trigger] after[i],
            #[trigger] after[j],
        ) by {
            if j < position {
                assert(after[i] == before[i] && after[j] == before[j]);
            } else if j == position {
                assert(after[i] == before[i]);
            } else if i == position {
                assert(after[j] == before[j - 1]);
                if j - 1 > position {
                    assert(repr_precedes(before[position as int], before[j - 1]));
                }
            } else if i < position {
                assert(after[i] == before[i] && after[j] == before[j - 1]);
            } else {
                assert(after[i] == before[i - 1] && after[j] == before[j - 1]);
            }
        }
        assert forall|candidate: EnumReprIr| after.contains(candidate) <==> (before.contains(candidate)
            || candidate == repr) by {
            if after.contains(candidate) {
                let k = choose|k: int| 0 <= k < after.len() && after[k] == candidate;
                if k < position {
                    assert(before[k] == candidate);
                } else if k > position {
                    assert(before[k - 1] == candidate);
                }
            }
            if before.contains(candidate) {
                let k = choose|k: int| 0 <= k < before.len() && before[k] == candidate;
                if k < position {
                    assert(after[k] == candidate);
                } else {
                    assert(after[k + 1] == candidate);
                }
            }
            if candidate == repr {
                assert(after[position as int] == repr);
            }
        }
    }
}

// ---------------------------------------------------------------------------
// Reading `repr` attributes
// ---------------------------------------------------------------------------

/// The hint a bare `repr` argument names, if it is one that is kept.
pub open spec fn named_repr(name: Seq<char>) -> Option<EnumReprIr> {
    if name == "Rust"@ {
        Some(EnumReprIr::Rust)
    } else if name == "C"@ {
        Some(EnumReprIr::C)
    } else if name == "transparent"@ {
        Some(EnumReprIr::Transparent)
    } else if name == "i8"@ {
        Some(EnumReprIr::I8)
    } else if name == "i16"@ {
        Some(EnumReprIr::I16)
    } else if name == "i32"@ {
        Some(EnumReprIr::I32)
    } else if name == "i64"@ {
        Some(EnumReprIr::I64)
    } else if name == "i128"@ {
        Some(EnumReprIr::I128)
    } else if name == "isize"@ {
        Some(EnumReprIr::Isize)
    } else if name == "u8"@ {
        Some(EnumReprIr::U8)
    } else if name == "u16"@ {
        Some(EnumReprIr::U16)
    } else if name == "u32"@ {
        Some(EnumReprIr::U32)
    } else if name == "u64"@ {
        Some(EnumReprIr::U64)
    } else if name == "u128"@ {
        Some(EnumReprIr::U128)
    } else if name == "usize"@ {
        Some(EnumReprIr::Usize)
    } else {
        None
    }
}

/// What one `repr` argument contributes before its literal is read: a named
/// hint, or `align(..)` around one literal token with the given text.
pub enum HintForm {
    Named(EnumReprIr),
    Alignment(Seq<char>),
}

/// The alignment a reading of an `align(..)` literal gives: an integer whose
/// value fits in a `usize`.
pub open spec fn alignment_of_reading(literal: LiteralView) -> Option<usize> {
    match literal {
        LiteralView::Integer(digits, _) => match unsigned_decimal(digits) {
            Some(value) => if value <= usize::MAX {
                Some(value as usize)
            } else {
                None
            },
            None => None,
        },
        _ => None,
    }
}

/// The form of one comma-separated `repr` argument: a kept name, or
/// `align(..)` holding exactly one literal token; `None` for any other
/// argument (`packed`, `simd`, `align(N)`, ...).
pub open spec fn repr_argument(item: Seq<TokenView>) -> Option<HintForm> {
    if item.len() == 1 {
        match item[0] {
            TokenView::Ident(name, _) => match named_repr(name) {
                Some(repr) => Some(HintForm::Named(repr)),
                None => None,
            },
            _ => None,
        }
    } else if item.len() == 2 && (item[0] matches TokenView::Ident(name, _) && name == "align"@) {
        match item[1] {
            TokenView::Group(delimiter, inner, _) => if delimiter != DelimiterIr::Invisible && inner.len() == 1 {
                match inner[0] {
                    TokenView::Literal(text, _) => Some(HintForm::Alignment(text)),
                    _ => None,
                }
            } else {
                None
            },
            _ => None,
        }
    } else {
        None
    }
}

/// The form of an argument as a sequence of at most one form.
pub open spec fn argument_forms(item: Seq<TokenView>) -> Seq<HintForm> {
    match repr_argument(item) {
        Some(form) => seq![form],
        None => Seq::empty(),
    }
}

/// The forms of the comma-separated arguments in `tokens`, in order, where
/// `pending` holds the tokens of the argument read so far.
pub open spec fn repr_arguments(tokens: Seq<TokenView>, pending: Seq<TokenView>) -> Seq<HintForm>
    decreases tokens.len(),
{
    if tokens.len() == 0 {
        argument_forms(pending)
    } else if tokens[0] matches TokenView::Punct(comma, _, _) && comma == ',' {
        argument_forms(pending) + repr_arguments(tokens.drop_first(), Seq::empty())
    } else {
        repr_arguments(tokens.drop_first(), pending.push(tokens[0]))
    }
}

/// Whether `item[index]` and `item[index + 1]` spell `::`.
pub open spec fn colons_at(item: Seq<TokenView>, index: int) -> bool {
    &&& 0 <= index
    &&& index + 1 < item.len()
    &&& item[index] matches TokenView::Punct(first, joint, _) && first == ':' && joint
    &&& item[index + 1] matches TokenView::Punct(second, _, _) && second == ':'
}

/// Whether `item[index]` is an identifier.
pub open spec fn ident_at(item: Seq<TokenView>, index: int) -> bool {
    0 <= index < item.len() && item[index] is Ident
}

/// The end of a path whose last identifier ends at `index`: further
/// segments `:: ident` are taken while they follow.
pub open spec fn path_end(item: Seq<TokenView>, index: int) -> int
    decreases item.len() - index,
{
    if 0 <= index && colons_at(item, index) && ident_at(item, index + 2) {
        path_end(item, index + 3)
    } else {
        index
    }
}

/// The length of the path that starts a meta item: an optional leading
/// `::`, then identifiers separated by `::`; 0 where there is none.
pub open spec fn meta_path_length(item: Seq<TokenView>) -> int {
    let start = if colons_at(item, 0) {
        2int
    } else {
        0int
    };
    if ident_at(item, start) {
        path_end(item, start + 1)
    } else {
        0
    }
}

/// Whether one comma-separated item is a meta: a path alone, a path followed
/// by one delimited group, or a path followed by `=` and a value. The value
/// is taken as written: any tokens up to the next comma.
pub open spec fn meta_item(item: Seq<TokenView>) -> bool {
    let length = meta_path_length(item);
    &&& length > 0
    &&& {
        ||| length == item.len()
        ||| length + 1 == item.len() && (item[length] matches TokenView::Group(delimiter, _, _)
            && delimiter != DelimiterIr::Invisible)
        ||| length + 1 < item.len() && (item[length] matches TokenView::Punct(equals, _, _) && equals == '=')
    }
}

/// Whether `tokens`, with `pending` read before them, are comma-separated
/// metas with an optional trailing comma.
pub open spec fn metas_well_formed(tokens: Seq<TokenView>, pending: Seq<TokenView>) -> bool
    decreases tokens.len(),
{
    if tokens.len() == 0 {
        pending.len() == 0 || meta_item(pending)
    } else if tokens[0] matches TokenView::Punct(comma, _, _) && comma == ',' {
        meta_item(pending) && metas_well_formed(tokens.drop_first(), Seq::empty())
    } else {
        metas_well_formed(tokens.drop_first(), pending.push(tokens[0]))
    }
}

/// The forms of one attribute body: `repr(...)` (with any delimiter) whose
/// arguments are comma-separated metas gives the forms of its arguments;
/// any other attribute, and a `repr` list that is no meta list, none.
pub open spec fn attribute_forms(body: Seq<TokenView>) -> Seq<HintForm> {
    if body.len() == 2 && (body[0] matches TokenView::Ident(name, _) && name == "repr"@) {
        match body[1] {
            TokenView::Group(delimiter, arguments, _) => if delimiter != DelimiterIr::Invisible
                && metas_well_formed(arguments, Seq::empty()) {
                repr_arguments(arguments, Seq::empty())
            } else {
                Seq::empty()
            },
            _ => Seq::empty(),
        }
    } else {
        Seq::empty()
    }
}

/// The forms of the outer attributes `#[...]` that lead a declaration, in
/// order.
pub open spec fn declared_forms(tokens: Seq<TokenView>) -> Seq<HintForm>
    decreases tokens.len(),
{
    if tokens.len() >= 2 && (tokens[0] matches TokenView::Punct(pound, _, _) && pound == '#') && (
    tokens[1] matches TokenView::Group(delimiter, _, _) && delimiter == DelimiterIr::Bracket) {
        match tokens[1] {
            TokenView::Group(_, body, _) => attribute_forms(body) + declared_forms(tokens.skip(2)),
            _ => Seq::empty(),
        }
    } else {
        Seq::empty()
    }
}

/// The hints that forms give when the literal of the `i`-th form reads as
/// `readings[i]`.
pub open spec fn resolved(forms: Seq<HintForm>, readings: Seq<LiteralView>) -> Seq<EnumReprIr>
    decreases forms.len(),
{
    if forms.len() == 0 {
        Seq::empty()
    } else {
        let head = match forms[0] {
            HintForm::Named(repr) => seq![repr],
            HintForm::Alignment(_) => match alignment_of_reading(readings[0]) {
                Some(alignment) => seq![EnumReprIr::Align(alignment)],
                None => Seq::empty(),
            },
        };
        head + resolved(forms.drop_first(), readings.drop_first())
    }
}

/// Whether `hints` are the hints of `forms` for some reading of their
/// alignment literals by `syn`.
pub open spec fn hints_admit(hints: Seq<EnumReprIr>, forms: Seq<HintForm>) -> bool {
    exists|readings: Seq<LiteralView>|
        readings.len() == forms.len() && readings_fit(forms, readings) && hints == #[trigger] resolved(forms, readings)
}

/// Whether each reading is the one `syn` gives the alignment literal of its
/// form, or none where the literal does not lex.
pub open spec fn readings_fit(forms: Seq<HintForm>, readings: Seq<LiteralView>) -> bool {
    forall|i: int|
        0 <= i < forms.len() ==> match #[trigger] forms[i] {
            HintForm::Alignment(text) => readings[i] is Other || readings[i] == literal_reading_of(text),
            HintForm::Named(_) => true,
        }
}

proof fn lemma_resolved_append(
    first: Seq<HintForm>,
    first_readings: Seq<LiteralView>,
    second: Seq<HintForm>,
    second_readings: Seq<LiteralView>,
)
    requires
        first_readings.len() == first.len(),
    ensures
        resolved(first + second, first_readings + second_readings) == resolved(first, first_readings) + resolved(
            second,
            second_readings,
        ),
    decreases first.len(),
{
    if first.len() == 0 {
        assert(first + second =~= second);
        assert(first_readings + second_readings =~= second_readings);
        assert(Seq::<EnumReprIr>::empty() + resolved(second, second_readings) =~= resolved(second, second_readings));
    } else {
        assert((first + second)[0] == first[0]);
        assert((first_readings + second_readings)[0] == first_readings[0]);
        assert((first + second).drop_first() =~= first.drop_first() + second);
        assert((first_readings + second_readings).drop_first() =~= first_readings.drop_first() + second_readings);
        lemma_resolved_append(first.drop_first(), first_readings.drop_first(), second, second_readings);
        let head = match first[0] {
            HintForm::Named(repr) => seq![repr],
            HintForm::Alignment(_) => match alignment_of_reading(first_readings[0]) {
                Some(alignment) => seq![EnumReprIr::Align(alignment)],
                None => Seq::<EnumReprIr>::empty(),
            },
        };
        assert(head + (resolved(first.drop_first(), first_readings.drop_first()) + resolved(second, second_readings))
            =~= (head + resolved(first.drop_first(), first_readings.drop_first())) + resolved(
            second,
            second_readings,
        ));
    }
}

proof fn lemma_admits_empty()
    ensures
        hints_admit(Seq::empty(), Seq::empty()),
{
    let readings = Seq::<LiteralView>::empty();
    assert(resolved(Seq::<HintForm>::empty(), readings) =~= Seq::<EnumReprIr>::empty());
}

proof fn lemma_admits_append(
    first: Seq<EnumReprIr>,
    first_forms: Seq<HintForm>,
    second: Seq<EnumReprIr>,
    second_forms: Seq<HintForm>,
)
    requires
        hints_admit(first, first_forms),
        hints_admit(second, second_forms),
    ensures
        hints_admit(first + second, first_forms + second_forms),
{
    let first_readings = choose|readings: Seq<LiteralView>|
        readings.len() == first_forms.len() && readings_fit(first_forms, readings) && first == #[trigger] resolved(
            first_forms,
            readings,
        );
    let second_readings = choose|readings: Seq<LiteralView>|
        readings.len() == second_forms.len() && readings_fit(second_forms, readings) && second
            == #[trigger] resolved(second_forms, readings);
    lemma_resolved_append(first_forms, first_readings, second_forms, second_readings);
    let readings = first_readings + second_readings;
    let forms = first_forms + second_forms;
    assert(readings.len() == forms.len());
    assert forall|i: int| 0 <= i < forms.len() implies match #[trigger] forms[i] {
        HintForm::Alignment(text) => readings[i] is Other || readings[i] == literal_reading_of(text),
        HintForm::Named(_) => true,
    } by {
        if i < first_forms.len() {
            assert(forms[i] == first_forms[i]);
            assert(readings[i] == first_readings[i]);
        } else {
            assert(forms[i] == second_forms[i - first_forms.len()]);
            assert(readings[i] == second_readings[i - first_forms.len()]);
        }
    }
    assert(first + second == resolved(first_forms + second_forms, readings));
}

fn named_repr_of(name: &str) -> (repr: Option<EnumReprIr>)
    ensures
        repr == named_repr(name@),
{
    proof {
        reveal_strlit("Rust");
        reveal_strlit("C");
        reveal_strlit("transparent");
        reveal_strlit("i8");
        reveal_strlit("i16");
        reveal_strlit("i32");
        reveal_strlit("i64");
        reveal_strlit("i128");
        reveal_strlit("isize");
        reveal_strlit("u8");
        reveal_strlit("u16");
        reveal_strlit("u32");
        reveal_strlit("u64");
        reveal_strlit("u128");
        reveal_strlit("usize");
    }
    if str_eq(name, "Rust") {
        Some(EnumReprIr::Rust)
    } else if str_eq(name, "C") {
        Some(EnumReprIr::C)
    } else if str_eq(name, "transparent") {
        Some(EnumReprIr::Transparent)
    } else if str_eq(name, "i8") {
        Some(EnumReprIr::I8)
    } else if str_eq(name, "i16") {
        Some(EnumReprIr::I16)
    } else if str_eq(name, "i32") {
        Some(EnumReprIr::I32)
    } else if str_eq(name, "i64") {
        Some(EnumReprIr::I64)
    } else if str_eq(name, "i128") {
        Some(EnumReprIr::I128)
    } else if str_eq(name, "isize") {
        Some(EnumReprIr::Isize)
    } else if str_eq(name, "u8") {
        Some(EnumReprIr::U8)
    } else if str_eq(name, "u16") {
        Some(EnumReprIr::U16)
    } else if str_eq(name, "u32") {
        Some(EnumReprIr::U32)
    } else if str_eq(name, "u64") {
        Some(EnumReprIr::U64)
    } else if str_eq(name, "u128") {
        Some(EnumReprIr::U128)
    } else if str_eq(name, "usize") {
        Some(EnumReprIr::Usize)
    } else {
        None
    }
}

/// Returns the alignment that a reading of an `align(..)` literal gives.
pub fn alignment_from(literal: &LiteralIr) -> (alignment: Option<usize>)
    ensures
        alignment == alignment_of_reading(literal@),
{
    match literal {
        LiteralIr::Integer { digits, .. } => match parse_unsigned_decimal(digits.as_str()) {
            Some(value) => if value <= usize::MAX as u128 {
                Some(value as usize)
            } else {
                None
            },
            None => None,
        },
        _ => None,
    }
}

/// The value of the token at `index`.
pub open spec fn token_view_at(tokens: Seq<TokenTreeIr>, index: int) -> TokenView {
    crate::substitution::token_view(tokens[index])
}

/// Reads the hint of the argument held by `tokens[start..end]`.
fn argument_repr(tokens: &Vec<TokenTreeIr>, start: usize, end: usize) -> (repr: Option<EnumReprIr>)
    requires
        start <= end <= tokens.len(),
    ensures
        hints_admit(
            match repr {
                Some(repr) => seq![repr],
                None => Seq::empty(),
            },
            argument_forms(tokens_view(tokens@).subrange(start as int, end as int)),
        ),
{
    let ghost item = tokens_view(tokens@).subrange(start as int, end as int);
    proof {
        lemma_tokens_view_index(tokens@);
        reveal_strlit("align");
        lemma_admits_empty();
    }
    if end - start == 1 {
        assert(item[0] == token_view_at(tokens@, start as int));
        match &tokens[start] {
            TokenTreeIr::Ident { name, .. } => {
                let repr = named_repr_of(name.as_str());
                proof {
                    if let Some(named) = repr {
                        let readings = seq![LiteralView::Other];
                        assert(resolved(argument_forms(item).drop_first(), readings.drop_first()) =~= Seq::<
                            EnumReprIr,
                        >::empty());
                        assert(resolved(argument_forms(item), readings) =~= seq![named]);
                    }
                }
                repr
            },
            _ => None,
        }
    } else if end - start == 2 {
        assert(item[0] == token_view_at(tokens@, start as int));
        assert(item[1] == token_view_at(tokens@, start + 1));
        match &tokens[start] {
            TokenTreeIr::Ident { name, .. } => {
                if !str_eq(name.as_str(), "align") {
                    return None;
                }
                match &tokens[start + 1] {
                    TokenTreeIr::Group { delimiter, tokens: inner, .. } => {
                        proof {
                            lemma_tokens_view_index(inner@);
                        }
                        if *delimiter == DelimiterIr::Invisible || inner.len() != 1 {
                            assert(argument_forms(item) =~= Seq::<HintForm>::empty());
                            return None;
                        }
                        assert(tokens_view(inner@)[0] == token_view_at(inner@, 0));
                        match &inner[0] {
                            TokenTreeIr::Literal { text, .. } => {
                                let reading = lex_literal(text.as_str());
                                let alignment = alignment_from(&reading);
                                let repr = match alignment {
                                    Some(alignment) => Some(EnumReprIr::Align(alignment)),
                                    None => None,
                                };
                                proof {
                                    let readings = seq![reading@];
                                    assert(argument_forms(item) == seq![HintForm::Alignment(text@)]);
                                    assert(resolved(argument_forms(item).drop_first(), readings.drop_first())
                                        =~= Seq::<EnumReprIr>::empty());
                                    let expected = match repr {
                                        Some(repr) => seq![repr],
                                        None => Seq::<EnumReprIr>::empty(),
                                    };
                                    assert(resolved(argument_forms(item), readings) =~= expected);
                                }
                                repr
                            },
                            _ => None,
                        }
                    },
                    _ => None,
                }
            },
            _ => None,
        }
    } else {
        None
    }
}

/// Returns the hints of comma-separated `repr` arguments, in order.
fn argument_hints_of(arguments: &Vec<TokenTreeIr>) -> (hints: Vec<EnumReprIr>)
    ensures
        hints_admit(hints@, repr_arguments(tokens_view(arguments@), Seq::empty())),
{
    let ghost whole = tokens_view(arguments@);
    proof {
        lemma_tokens_view_index(arguments@);
        assert(whole.skip(0) =~= whole);
        assert(whole.subrange(0, 0) =~= Seq::<TokenView>::empty());
        lemma_admits_empty();
    }
    let mut hints: Vec<EnumReprIr> = Vec::new();
    let ghost mut forms: Seq<HintForm> = Seq::empty();
    let mut start: usize = 0;
    let mut index: usize = 0;
    assert(forms + repr_arguments(whole, Seq::empty()) =~= repr_arguments(whole, Seq::empty()));
    while index < arguments.len()
        invariant
            whole == tokens_view(arguments@),
            whole.len() == arguments.len(),
            forall|i: int| 0 <= i < arguments.len() ==> #[trigger] whole[i] == token_view_at(arguments@, i),
            start <= index <= arguments.len(),
            hints_admit(hints@, forms),
            forms + repr_arguments(whole.skip(index as int), whole.subrange(start as int, index as int))
                == repr_arguments(whole, Seq::empty()),
        decreases arguments.len() - index,
    {
        let ghost rest = whole.skip(index as int);
        let ghost pending = whole.subrange(start as int, index as int);
        assert(rest[0] == whole[index as int]);
        assert(rest.drop_first() =~= whole.skip(index + 1));
        let is_comma = match &arguments[index] {
            TokenTreeIr::Punct { ch, .. } => *ch == ',',
            _ => false,
        };
        if is_comma {
            let found = argument_repr(arguments, start, index);
            let ghost before = hints@;
            if let Some(repr) = found {
                hints.push(repr);
            }
            proof {
                let added = match found {
                    Some(repr) => seq![repr],
                    None => Seq::<EnumReprIr>::empty(),
                };
                assert(hints@ =~= before + added);
                lemma_admits_append(before, forms, added, argument_forms(pending));
                assert(forms + argument_forms(pending) + repr_arguments(rest.drop_first(), Seq::empty()) =~= forms
                    + (argument_forms(pending) + repr_arguments(rest.drop_first(), Seq::empty())));
                forms = forms + argument_forms(pending);
            }
            assert(whole.subrange(index + 1, index + 1) =~= Seq::<TokenView>::empty());
            start = index + 1;
        } else {
            assert(whole.subrange(start as int, index + 1) =~= pending.push(whole[index as int]));
        }
        index += 1;
    }
    let ghost pending = whole.subrange(start as int, index as int);
    assert(whole.skip(index as int) =~= Seq::<TokenView>::empty());
    let found = argument_repr(arguments, start, index);
    let ghost before = hints@;
    if let Some(repr) = found {
        hints.push(repr);
    }
    proof {
        let added = match found {
            Some(repr) => seq![repr],
            None => Seq::<EnumReprIr>::empty(),
        };
        assert(hints@ =~= before + added);
        lemma_admits_append(before, forms, added, argument_forms(pending));
    }
    hints
}

/// Returns the end of the path that starts at `index`, just after an
/// identifier: further `:: ident` segments are taken while they follow.
fn path_end_of(item: &Vec<TokenTreeIr>, start: usize, end: usize, index: usize) -> (found: usize)
    requires
        start < index <= end <= item.len(),
    ensures
        index <= found <= end,
        found == start + path_end(tokens_view(item@).subrange(start as int, end as int), index - start),
{
    let ghost view = tokens_view(item@).subrange(start as int, end as int);
    proof {
        lemma_tokens_view_index(item@);
    }
    let mut position: usize = index;
    while end - position > 2
        invariant
            start < index <= position <= end <= item.len(),
            view == tokens_view(item@).subrange(start as int, end as int),
            tokens_view(item@).len() == item.len(),
            forall|i: int| 0 <= i < item.len() ==> #[trigger] tokens_view(item@)[i] == token_view_at(item@, i),
            path_end(view, position - start) == path_end(view, index - start),
        decreases end - position,
    {
        let ghost local = position - start;
        assert(view[local] == tokens_view(item@)[position as int]);
        assert(view[local + 1] == tokens_view(item@)[position + 1]);
        assert(view[local + 2] == tokens_view(item@)[position + 2]);
        assert(view[local] == token_view_at(item@, position as int));
        assert(view[local + 1] == token_view_at(item@, position + 1));
        assert(view[local + 2] == token_view_at(item@, position + 2));
        let first = match &item[position] {
            TokenTreeIr::Punct { ch, joint, .. } => *ch == ':' && *joint,
            _ => false,
        };
        let second = match &item[position + 1] {
            TokenTreeIr::Punct { ch, .. } => *ch == ':',
            _ => false,
        };
        let third = match &item[position + 2] {
            TokenTreeIr::Ident { .. } => true,
            _ => false,
        };
        if !(first && second && third) {
            assert(!(colons_at(view, local) && ident_at(view, local + 2)));
            return position;
        }
        position = position + 3;
    }
    proof {
        let local = position - start;
        assert(!ident_at(view, local + 2));
    }
    position
}

/// Whether `tokens[start..end]` is one meta item.
fn meta_item_at(tokens: &Vec<TokenTreeIr>, start: usize, end: usize) -> (valid: bool)
    requires
        start <= end <= tokens.len(),
    ensures
        valid == meta_item(tokens_view(tokens@).subrange(start as int, end as int)),
{
    let ghost item = tokens_view(tokens@).subrange(start as int, end as int);
    proof {
        lemma_tokens_view_index(tokens@);
    }
    let mut first = start;
    if end - start >= 2 {
        assert(item[0] == token_view_at(tokens@, start as int));
        assert(item[1] == token_view_at(tokens@, start + 1));
        let leading = match &tokens[start] {
            TokenTreeIr::Punct { ch, joint, .. } => *ch == ':' && *joint,
            _ => false,
        } && match &tokens[start + 1] {
            TokenTreeIr::Punct { ch, .. } => *ch == ':',
            _ => false,
        };
        if leading {
            first = start + 2;
        }
        assert(leading == colons_at(item, 0));
    } else {
        assert(!colons_at(item, 0));
    }
    if first >= end {
        return false;
    }
    assert(item[first - start] == token_view_at(tokens@, first as int));
    let is_ident = match &tokens[first] {
        TokenTreeIr::Ident { .. } => true,
        _ => false,
    };
    if !is_ident {
        return false;
    }
    let after = path_end_of(tokens, start, end, first + 1);
    assert(after - start == meta_path_length(item));
    if after == end {
        return true;
    }
    assert(item[after - start] == tokens_view(tokens@)[after as int]);
    assert(item[after - start] == token_view_at(tokens@, after as int));
    if end - after == 1 {
        match &tokens[after] {
            TokenTreeIr::Group { delimiter, .. } => *delimiter != DelimiterIr::Invisible,
            _ => false,
        }
    } else {
        match &tokens[after] {
            TokenTreeIr::Punct { ch, .. } => *ch == '=',
            _ => false,
        }
    }
}

/// Whether the arguments of an attribute list are comma-separated metas.
fn metas_well_formed_of(arguments: &Vec<TokenTreeIr>) -> (valid: bool)
    ensures
        valid == metas_well_formed(tokens_view(arguments@), Seq::empty()),
{
    let ghost whole = tokens_view(arguments@);
    proof {
        lemma_tokens_view_index(arguments@);
        assert(whole.skip(0) =~= whole);
        assert(whole.subrange(0, 0) =~= Seq::<TokenView>::empty());
    }
    let mut start: usize = 0;
    let mut index: usize = 0;
    while index < arguments.len()
        invariant
            whole == tokens_view(arguments@),
            whole.len() == arguments.len(),
            forall|i: int| 0 <= i < arguments.len() ==> #[trigger] whole[i] == token_view_at(arguments@, i),
            start <= index <= arguments.len(),
            metas_well_formed(whole.skip(index as int), whole.subrange(start as int, index as int))
                == metas_well_formed(whole, Seq::empty()),
        decreases arguments.len() - index,
    {
        let ghost rest = whole.skip(index as int);
        let ghost pending = whole.subrange(start as int, index as int);
        assert(rest[0] == whole[index as int]);
        assert(rest.drop_first() =~= whole.skip(index + 1));
        let is_comma = match &arguments[index] {
            TokenTreeIr::Punct { ch, .. } => *ch == ',',
            _ => false,
        };
        if is_comma {
            if !meta_item_at(arguments, start, index) {
                return false;
            }
            assert(whole.subrange(index + 1, index + 1) =~= Seq::<TokenView>::empty());
            start = index + 1;
        } else {
            assert(whole.subrange(start as int, index + 1) =~= pending.push(whole[index as int]));
        }
        index += 1;
    }
    assert(whole.skip(index as int) =~= Seq::<TokenView>::empty());
    if start == index {
        assert(whole.subrange(start as int, index as int).len() == 0);
        true
    } else {
        meta_item_at(arguments, start, index)
    }
}

fn attribute_hints_of(body: &Vec<TokenTreeIr>) -> (hints: Vec<EnumReprIr>)
    ensures
        hints_admit(hints@, attribute_forms(tokens_view(body@))),
{
    proof {
        lemma_tokens_view_index(body@);
        reveal_strlit("repr");
        lemma_admits_empty();
    }
    if body.len() != 2 {
        return Vec::new();
    }
    match &body[0] {
        TokenTreeIr::Ident { name, .. } => {
            if !str_eq(name.as_str(), "repr") {
                return Vec::new();
            }
        },
        _ => {
            return Vec::new();
        },
    }
    match &body[1] {
        TokenTreeIr::Group { delimiter, tokens, .. } => {
            if *delimiter == DelimiterIr::Invisible || !metas_well_formed_of(tokens) {
                Vec::new()
            } else {
                argument_hints_of(tokens)
            }
        },
        _ => Vec::new(),
    }
}

/// Returns the hints of the `repr` attributes that lead a declaration's
/// tokens, in the order they are written; each `align(..)` literal is read
/// by `syn`.
pub fn declared_representations(tokens: &Vec<TokenTreeIr>) -> (hints: Vec<EnumReprIr>)
    ensures
        hints_admit(hints@, declared_forms(tokens_view(tokens@))),
{
    let ghost whole = tokens_view(tokens@);
    proof {
        lemma_tokens_view_index(tokens@);
        assert(whole.skip(0) =~= whole);
        lemma_admits_empty();
        assert(Seq::<HintForm>::empty() + declared_forms(whole) =~= declared_forms(whole));
    }
    let mut hints: Vec<EnumReprIr> = Vec::new();
    let ghost mut forms: Seq<HintForm> = Seq::empty();
    let mut index: usize = 0;
    loop
        invariant
            whole == tokens_view(tokens@),
            whole.len() == tokens.len(),
            forall|i: int| 0 <= i < tokens.len() ==> #[trigger] whole[i] == token_view_at(tokens@, i),
            index <= tokens.len(),
            hints_admit(hints@, forms),
            forms + declared_forms(whole.skip(index as int)) == declared_forms(whole),
        decreases tokens.len() - index,
    {
        let ghost rest = whole.skip(index as int);
        if tokens.len() - index < 2 {
            assert(declared_forms(rest) == Seq::<HintForm>::empty());
            assert(forms + Seq::<HintForm>::empty() =~= forms);
            return hints;
        }
        assert(rest[0] == whole[index as int]);
        assert(rest[1] == whole[index + 1]);
        let pound = match &tokens[index] {
            TokenTreeIr::Punct { ch, .. } => *ch == '#',
            _ => false,
        };
        if !pound {
            assert(declared_forms(rest) == Seq::<HintForm>::empty());
            assert(forms + Seq::<HintForm>::empty() =~= forms);
            return hints;
        }
        match &tokens[index + 1] {
            TokenTreeIr::Group { delimiter, tokens: body, .. } => {
                if *delimiter != DelimiterIr::Bracket {
                    assert(declared_forms(rest) == Seq::<HintForm>::empty());
                    assert(forms + Seq::<HintForm>::empty() =~= forms);
                    return hints;
                }
                let mut found = attribute_hints_of(body);
                assert(rest.skip(2) =~= whole.skip(index + 2));
                let ghost before = hints@;
                let ghost added = found@;
                hints.append(&mut found);
                proof {
                    assert(hints@ =~= before + added);
                    lemma_admits_append(before, forms, added, attribute_forms(tokens_view(body@)));
                    assert(forms + attribute_forms(tokens_view(body@)) + declared_forms(whole.skip(index + 2))
                        =~= forms + (attribute_forms(tokens_view(body@)) + declared_forms(whole.skip(index + 2))));
                    forms = forms + attribute_forms(tokens_view(body@));
                }
            },
            _ => {
                assert(declared_forms(rest) == Seq::<HintForm>::empty());
                assert(forms + Seq::<HintForm>::empty() =~= forms);
                return hints;
            },
        }
        index += 2;
    }
}

/// Whether a text contains one of the keywords that introduce a derive
/// input: `struct`, `enum` or `union`.
pub open spec fn mentions_item_keyword(text: Seq<char>) -> bool {
    exists|i: int|
        0 <= i && ({
            ||| i + 6 <= text.len() && #[trigger] text.subrange(i, i + 6) == "struct"@
            ||| i + 4 <= text.len() && text.subrange(i, i + 4) == "enum"@
            ||| i + 5 <= text.len() && text.subrange(i, i + 5) == "union"@
        })
}

/// Tells whether a declaration's tokens form a derive input.
///
/// Trusted: returns whether `syn::parse_str::<syn::DeriveInput>` accepts
/// `text`. A derive input holds a `struct`, `enum` or `union` keyword, and
/// a lexer only yields that keyword from those very letters of the text, so
/// an accepted text contains one of the three words whichever lexer runs.
/// Nothing more is claimed: which texts lex at all depends on the lexer of
/// the running process.
#[verifier::external_body]
fn parses_as_derive_input(text: &str) -> (derive_input: bool)
    ensures
        derive_input ==> mentions_item_keyword(text@),
{
    syn::parse_str::<syn::DeriveInput>(text).is_ok()
}

/// Whether `reprs` are, in canonical order and each once, the hints that the
/// leading `repr` attributes of `tokens` give for some reading of their
/// alignment literals.
pub open spec fn canonical_representations(reprs: Seq<EnumReprIr>, tokens: Seq<TokenView>) -> bool {
    &&& canonically_ordered(reprs)
    &&& exists|hints: Seq<EnumReprIr>|
        #![trigger hints_admit(hints, declared_forms(tokens))]
        hints_admit(hints, declared_forms(tokens)) && forall|repr: EnumReprIr|
            reprs.contains(repr) <==> hints.contains(repr)
}

/// Returns the `repr` hints of a declaration's tokens in canonical order,
/// each once, given whether the tokens form a derive input: tokens that do
/// not give no hints.
pub fn representations_of(tokens: &Vec<TokenTreeIr>, derive_input: bool) -> (reprs: Vec<EnumReprIr>)
    ensures
        derive_input ==> canonical_representations(reprs@, tokens_view(tokens@)),
        !derive_input ==> reprs@.len() == 0,
{
    if !derive_input {
        return Vec::new();
    }
    let declared = declared_representations(tokens);
    let mut reprs: Vec<EnumReprIr> = Vec::new();
    let mut index: usize = 0;
    while index < declared.len()
        invariant
            index <= declared.len(),
            canonically_ordered(reprs@),
            forall|repr: EnumReprIr| reprs@.contains(repr) <==> declared@.subrange(0, index as int).contains(repr),
        decreases declared.len() - index,
    {
        let ghost before = reprs@;
        insert_canonically(&mut reprs, declared[index]);
        proof {
            let seen = declared@.subrange(0, index as int);
            let next = declared@.subrange(0, index + 1);
            assert(next =~= seen.push(declared@[index as int]));
            assert forall|repr: EnumReprIr| reprs@.contains(repr) <==> next.contains(repr) by {
                if seen.contains(repr) {
                    let k = choose|k: int| 0 <= k < seen.len() && seen[k] == repr;
                    assert(next[k] == repr);
                }
                if next.contains(repr) {
                    let k = choose|k: int| 0 <= k < next.len() && next[k] == repr;
                    if k < index {
                        assert(seen[k] == repr);
                    }
                }
                if repr == declared@[index as int] {
                    assert(next[index as int] == repr);
                }
            }
        }
        index += 1;
    }
    assert(declared@.subrange(0, declared.len() as int) =~= declared@);
    assert(hints_admit(declared@, declared_forms(tokens_view(tokens@))));
    reprs
}

/// Returns the `repr` hints of a declaration in canonical order, each once.
/// The tokens are first read as a derive input by `syn`; where they are not
/// one there are no hints, and text without a `struct`, `enum` or `union`
/// keyword is never one.
pub fn enum_representations(tokens: &Vec<TokenTreeIr>) -> (reprs: Vec<EnumReprIr>)
    ensures
        reprs@.len() == 0 || canonical_representations(reprs@, tokens_view(tokens@)),
        !mentions_item_keyword(token_text(tokens_view(tokens@))) ==> reprs@.len() == 0,
{
    let text = tokens_text(tokens);
    let derive_input = parses_as_derive_input(text.as_str());
    representations_of(tokens, derive_input)
}

// ---------------------------------------------------------------------------
// Integer discriminants
// ---------------------------------------------------------------------------

/// The integer spelling of the first integer hint.
pub open spec fn first_integer_name(reprs: Seq<EnumReprIr>) -> Option<Seq<char>>
    decreases reprs.len(),
{
    if reprs.len() == 0 {
        None
    } else {
        match repr_integer_name(reprs[0]) {
            Some(name) => Some(name),
            None => first_integer_name(reprs.drop_first()),
        }
    }
}

/// Whether every variant of an enum is a unit variant.
pub open spec fn all_unit_variants(declaration: TypeDeclarationIr) -> bool {
    forall|i: int| 0 <= i < declaration.variants@.len() ==> (#[trigger] declaration.variants@[i]).kind
        == VariantKindIr::Unit
}

/// Returns the primitive integer that the discriminants of a fieldless,
/// non-generic enum are read as: the first integer hint among `reprs`.
/// Enums with fields or generic parameters have none.
pub fn integer_representation(declaration: &TypeDeclarationIr, reprs: &Vec<EnumReprIr>) -> (name: Option<
    &'static str,
>)
    ensures
        match name {
            Some(name) => all_unit_variants(*declaration) && declaration.generics.params@.len() == 0
                && first_integer_name(reprs@) == Some(name@),
            None => !(all_unit_variants(*declaration) && declaration.generics.params@.len() == 0)
                || first_integer_name(reprs@) is None,
        },
{
    let mut index: usize = 0;
    while index < declaration.variants.len()
        invariant
            index <= declaration.variants@.len(),
            forall|i: int| 0 <= i < index ==> (#[trigger] declaration.variants@[i]).kind == VariantKindIr::Unit,
        decreases declaration.variants.len() - index,
    {
        if declaration.variants[index].kind != VariantKindIr::Unit {
            return None;
        }
        index += 1;
    }
    if declaration.generics.params.len() != 0 {
        return None;
    }
    let mut position: usize = 0;
    assert(reprs@.skip(0) =~= reprs@);
    assert(all_unit_variants(*declaration));
    while position < reprs.len()
        invariant
            position <= reprs@.len(),
            first_integer_name(reprs@.skip(position as int)) == first_integer_name(reprs@),
            all_unit_variants(*declaration),
            declaration.generics.params@.len() == 0,
        decreases reprs.len() - position,
    {
        assert(reprs@.skip(position as int)[0] == reprs@[position as int]);
        assert(reprs@.skip(position as int).drop_first() =~= reprs@.skip(position + 1));
        let found = reprs[position].integer_name();
        if found.is_some() {
            assert(first_integer_name(reprs@.skip(position as int)) == repr_integer_name(reprs@[position as int]));
            return found;
        }
        position += 1;
    }
    assert(reprs@.skip(position as int) =~= Seq::<EnumReprIr>::empty());
    None
}

// ---------------------------------------------------------------------------
// The canonical order does not depend on how the hints were written
// ---------------------------------------------------------------------------

proof fn lemma_precedes_is_strict(first: EnumReprIr, second: EnumReprIr)
    ensures
        !(repr_precedes(first, second) && repr_precedes(second, first)),
        !repr_precedes(first, first),
{
}

/// Two canonically ordered hint sequences that hold the same hints are the
/// same sequence: the hints of a declaration come out in one order, however
/// its `repr` attributes order or repeat them.
pub proof fn law_canonical_order_is_unique(first: Seq<EnumReprIr>, second: Seq<EnumReprIr>)
    requires
        canonically_ordered(first),
        canonically_ordered(second),
        forall|repr: EnumReprIr| first.contains(repr) <==> second.contains(repr),
    ensures
        first == second,
    decreases first.len(),
{
    if first.len() == 0 {
        if second.len() > 0 {
            assert(second.contains(second[0]));
        }
        assert(first =~= second);
    } else {
        assert(first.contains(first[0]));
        assert(second.len() > 0);
        assert(second.contains(second[0]));
        let head = first[0];
        let j = choose|j: int| 0 <= j < second.len() && second[j] == head;
        let k = choose|k: int| 0 <= k < first.len() && first[k] == second[0];
        if j > 0 {
            assert(repr_precedes(second[0], second[j]));
            if k > 0 {
                assert(repr_precedes(first[0], first[k]));
            }
            lemma_precedes_is_strict(second[0], head);
        }
        assert(second[0] == head);
        let first_rest = first.drop_first();
        let second_rest = second.drop_first();
        assert(canonically_ordered(first_rest)) by {
            assert forall|a: int, b: int| 0 <= a < b < first_rest.len() implies repr_precedes(
                #[trigger] first_rest[a],
                #[trigger] first_rest[b],
            ) by {
                assert(first_rest[a] == first[a + 1] && first_rest[b] == first[b + 1]);
            }
        }
        assert(canonically_ordered(second_rest)) by {
            assert forall|a: int, b: int| 0 <= a < b < second_rest.len() implies repr_precedes(
                #[trigger] second_rest[a],
                #[trigger] second_rest[b],
            ) by {
                assert(second_rest[a] == second[a + 1] && second_rest[b] == second[b + 1]);
            }
        }
        assert forall|repr: EnumReprIr| first_rest.contains(repr) <==> second_rest.contains(repr) by {
            if first_rest.contains(repr) {
                let a = choose|a: int| 0 <= a < first_rest.len() && first_rest[a] == repr;
                assert(first[a + 1] == repr);
                assert(repr_precedes(head, repr));
                lemma_precedes_is_strict(head, repr);
                assert(first.contains(repr));
                let b = choose|b: int| 0 <= b < second.len() && second[b] == repr;
                assert(b != 0);
                assert(second_rest[b - 1] == repr);
            }
            if second_rest.contains(repr) {
                let a = choose|a: int| 0 <= a < second_rest.len() && second_rest[a] == repr;
                assert(second[a + 1] == repr);
                assert(repr_precedes(head, repr));
                lemma_precedes_is_strict(head, repr);
                assert(second.contains(repr));
                let b = choose|b: int| 0 <= b < first.len() && first[b] == repr;
                assert(b != 0);
                assert(first_rest[b - 1] == repr);
            }
        }
        law_canonical_order_is_unique(first_rest, second_rest);
        assert(first =~= seq![head] + first_rest);
        assert(second =~= seq![head] + second_rest);
    }
}

} // verus!
