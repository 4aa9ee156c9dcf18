//! Token emission of the active-variant check and the field-access adapters
//! of one variant of a reflected enum.

use vstd::prelude::*;

use crate::codegen::append_tokens;
use crate::codegen::colons_view;
use crate::codegen::ident_view;
use crate::codegen::path_tokens;
use crate::codegen::path_view;
use crate::codegen::punct_view;
use crate::construction::comma_separated;
use crate::construction::empty_tokens;
use crate::construction::group_view;
use crate::construction::literal_view;
use crate::construction::push_colons;
use crate::construction::push_empty_call;
use crate::construction::push_group;
use crate::construction::push_ident;
use crate::construction::push_literal;
use crate::construction::push_punct;
use crate::construction::push_std_path;
use crate::construction::push_unreachable;
use crate::construction::push_unwrap_unreachable;
use crate::construction::std_path_view;
use crate::construction::unreachable_view;
use crate::construction::unwrap_unreachable_view;
use crate::ir::DelimiterIr;
use crate::ir::FieldIr;
use crate::ir::TokenTreeIr;
use crate::ir::VariantIr;
use crate::ir::VariantKindIr;
use crate::substitution::tokens_view;
use crate::substitution::TokenView;
use crate::text::decimal;
use crate::text::decimal_string;
use crate::text::join2;
use crate::text::join3;
use crate::text::join5;

verus! {

// ---------------------------------------------------------------------------
// Types and expressions
// ---------------------------------------------------------------------------

/// `facade::__private::codegen_v2::names...`.
pub open spec fn cg2_view(facade: Seq<TokenView>, names: Seq<Seq<char>>) -> Seq<TokenView> {
    path_view(facade, seq!["__private"@, "codegen_v2"@] + names)
}

/// `'name`.
pub open spec fn lifetime_view(name: Seq<char>) -> Seq<TokenView> {
    seq![punct_view('\'', true), ident_view(name)]
}

/// `::core::result::Result<ok, error>`.
pub open spec fn result_type_view(ok: Seq<TokenView>, error: Seq<TokenView>) -> Seq<TokenView> {
    std_path_view(seq!["core"@, "result"@, "Result"@]) + seq![punct_view('<', false)] + ok + seq![
        punct_view(',', false),
    ] + error + seq![punct_view('>', false)]
}

/// The field access error type.
pub open spec fn access_error_view(facade: Seq<TokenView>) -> Seq<TokenView> {
    cg2_view(facade, seq!["access"@, "FieldAccessError"@])
}

/// `()`.
pub open spec fn unit_view() -> Seq<TokenView> {
    seq![group_view(DelimiterIr::Parenthesis, Seq::empty())]
}

/// A local value view type: `kind<'lifetime>`.
pub open spec fn local_type_view(facade: Seq<TokenView>, kind: Seq<char>, lifetime: Seq<char>) -> Seq<TokenView> {
    cg2_view(facade, seq!["value"@, kind]) + seq![punct_view('<', false)] + lifetime_view(lifetime) + seq![
        punct_view('>', false),
    ]
}

/// A thread-safe value view type: `kind<'lifetime, ThreadSafe>`.
pub open spec fn thread_type_view(facade: Seq<TokenView>, kind: Seq<char>, lifetime: Seq<char>) -> Seq<TokenView> {
    cg2_view(facade, seq!["value"@, kind]) + seq![punct_view('<', false)] + lifetime_view(lifetime) + seq![
        punct_view(',', false),
    ] + cg2_view(facade, seq!["value"@, "ThreadSafe"@]) + seq![punct_view('>', false)]
}

/// `let value = target.downcast::<Self>().unwrap_or_else(|_| unreachable!(..));`.
pub open spec fn downcast_line_view() -> Seq<TokenView> {
    seq![
        ident_view("let"@),
        ident_view("value"@),
        punct_view('=', false),
        ident_view("target"@),
        punct_view('.', false),
        ident_view("downcast"@),
    ] + colons_view() + seq![
        punct_view('<', false),
        ident_view("Self"@),
        punct_view('>', false),
        group_view(DelimiterIr::Parenthesis, Seq::empty()),
    ] + unwrap_unreachable_view("\"validated enum target\""@) + seq![punct_view(';', false)]
}

/// `let value = target.downcast_ref::<Self>().unwrap_or_else(|| unreachable!(..));`.
pub open spec fn downcast_ref_line_view() -> Seq<TokenView> {
    seq![
        ident_view("let"@),
        ident_view("value"@),
        punct_view('=', false),
        ident_view("target"@),
        punct_view('.', false),
        ident_view("downcast_ref"@),
    ] + colons_view() + seq![
        punct_view('<', false),
        ident_view("Self"@),
        punct_view('>', false),
        group_view(DelimiterIr::Parenthesis, Seq::empty()),
        punct_view('.', false),
        ident_view("unwrap_or_else"@),
        group_view(
            DelimiterIr::Parenthesis,
            seq![punct_view('|', true), punct_view('|', false)] + unreachable_view("\"validated enum target\""@),
        ),
        punct_view(';', false),
    ]
}

/// `match value { pattern => arm, _ => Err(inactive) }`, with a trailing
/// comma where asked.
pub open spec fn match_view(
    pattern: Seq<TokenView>,
    arm: Seq<TokenView>,
    inactive: Seq<TokenView>,
    trailing: bool,
) -> Seq<TokenView> {
    seq![
        ident_view("match"@),
        ident_view("value"@),
        group_view(
            DelimiterIr::Brace,
            pattern + seq![punct_view('=', true), punct_view('>', false)] + arm + seq![
                punct_view(',', false),
                ident_view("_"@),
                punct_view('=', true),
                punct_view('>', false),
                ident_view("Err"@),
                group_view(DelimiterIr::Parenthesis, inactive),
            ] + if trailing {
                seq![punct_view(',', false)]
            } else {
                Seq::empty()
            },
        ),
    ]
}

/// A string literal of text that needs no escapes.
pub open spec fn quoted(text: Seq<char>) -> Seq<char> {
    "\""@ + text + "\""@
}

// ---------------------------------------------------------------------------
// Patterns and identity
// ---------------------------------------------------------------------------

/// The binding of the field at `index`.
pub open spec fn binding_name(index: usize) -> Seq<char> {
    "__qubit_reflect_value_"@ + decimal(index as nat)
}

/// `Self::Variant`.
pub open spec fn variant_path_view(variant: VariantIr) -> Seq<TokenView> {
    seq![ident_view("Self"@)] + colons_view() + seq![ident_view(variant.name@)]
}

/// `..`.
pub open spec fn rest_view() -> Seq<TokenView> {
    seq![punct_view('.', true), punct_view('.', false)]
}

/// The pattern that matches the variant whatever its fields hold.
pub open spec fn active_pattern_view(variant: VariantIr) -> Seq<TokenView> {
    match variant.kind {
        VariantKindIr::Unit => variant_path_view(variant),
        VariantKindIr::Tuple => variant_path_view(variant) + seq![group_view(DelimiterIr::Parenthesis, rest_view())],
        VariantKindIr::Struct => variant_path_view(variant) + seq![group_view(DelimiterIr::Brace, rest_view())],
    }
}

/// The tuple pattern items that bind the field at `index` and ignore the
/// others.
pub open spec fn tuple_bindings(count: nat, index: usize) -> Seq<Seq<TokenView>> {
    Seq::new(
        count,
        |position: int|
            if position == index {
                seq![ident_view(binding_name(index))]
            } else {
                seq![ident_view("_"@)]
            },
    )
}

/// The pattern that binds one field of the variant.
pub open spec fn field_pattern_view(variant: VariantIr, field: FieldIr) -> Seq<TokenView> {
    match variant.kind {
        VariantKindIr::Struct => variant_path_view(variant) + seq![
            group_view(
                DelimiterIr::Brace,
                seq![
                    ident_view(crate::construction::field_name(field)),
                    punct_view(':', false),
                    ident_view(binding_name(field.index)),
                    punct_view(',', false),
                ] + rest_view(),
            ),
        ],
        _ => variant_path_view(variant) + seq![
            group_view(
                DelimiterIr::Parenthesis,
                comma_separated(tuple_bindings(variant.fields@.len(), field.index)),
            ),
        ],
    }
}

/// `Some("name")` for a named field, `None` for a tuple field.
pub open spec fn rust_name_view(field: FieldIr) -> Seq<TokenView> {
    match field.name {
        Some(name) => seq![
            ident_view("Some"@),
            group_view(DelimiterIr::Parenthesis, seq![literal_view(quoted(name@))]),
        ],
        None => seq![ident_view("None"@)],
    }
}

/// `::std::any::name::<Self>()`.
pub open spec fn self_type_call_view(name: Seq<char>) -> Seq<TokenView> {
    std_path_view(seq!["std"@, "any"@, name]) + colons_view() + seq![
        punct_view('<', false),
        ident_view("Self"@),
        punct_view('>', false),
        group_view(DelimiterIr::Parenthesis, Seq::empty()),
    ]
}

/// `::std::any::TypeId::of::<Self>(), ::std::any::type_name::<Self>(),`.
pub open spec fn self_identity_view() -> Seq<TokenView> {
    std_path_view(seq!["std"@, "any"@, "TypeId"@]) + colons_view() + seq![ident_view("of"@)] + colons_view() + seq![
        punct_view('<', false),
        ident_view("Self"@),
        punct_view('>', false),
        group_view(DelimiterIr::Parenthesis, Seq::empty()),
        punct_view(',', false),
    ] + self_type_call_view("type_name"@) + seq![punct_view(',', false)]
}

/// The field and variant positions and names of a field identity.
pub open spec fn field_position_view(variant: VariantIr, field: FieldIr) -> Seq<TokenView> {
    seq![literal_view(decimal(field.index as nat) + "usize"@), punct_view(',', false)] + rust_name_view(field)
        + seq![
        punct_view(',', false),
        literal_view(decimal(variant.index as nat) + "usize"@),
        punct_view(',', false),
        literal_view(quoted(variant.name@)),
        punct_view(',', false),
    ]
}

/// The error for a field read while another variant is active.
pub open spec fn inactive_view(facade: Seq<TokenView>, variant: VariantIr, field: FieldIr) -> Seq<TokenView> {
    cg2_view(facade, seq!["access"@, "FieldAccessError"@, "inactive_variant"@]) + seq![
        group_view(
            DelimiterIr::Parenthesis,
            cg2_view(facade, seq!["access"@, "FieldIdentity"@, "new_variant"@]) + seq![
                group_view(DelimiterIr::Parenthesis, self_identity_view() + field_position_view(variant, field)),
                punct_view(',', false),
            ],
        ),
    ]
}

// ---------------------------------------------------------------------------
// Adapter functions
// ---------------------------------------------------------------------------

/// The lifetime that generated borrowing adapters declare.
pub open spec fn adapter_lifetime() -> Seq<char> {
    "__qubit_reflect"@
}

/// `fn name<'l>(target: kind<'l>) -> Result<kind<'l>, Error> { .. Ok(kind::new(binding)) .. }`.
pub open spec fn local_get_view(
    facade: Seq<TokenView>,
    name: Seq<char>,
    kind: Seq<char>,
    pattern: Seq<TokenView>,
    binding: Seq<char>,
    inactive: Seq<TokenView>,
) -> Seq<TokenView> {
    seq![ident_view("fn"@), ident_view(name), punct_view('<', false)] + lifetime_view(adapter_lifetime()) + seq![
        punct_view('>', false),
        group_view(
            DelimiterIr::Parenthesis,
            seq![ident_view("target"@), punct_view(':', false)] + local_type_view(facade, kind, adapter_lifetime()),
        ),
        punct_view('-', true),
        punct_view('>', false),
    ] + result_type_view(local_type_view(facade, kind, adapter_lifetime()), access_error_view(facade)) + seq![
        group_view(
            DelimiterIr::Brace,
            downcast_line_view() + match_view(
                pattern,
                seq![
                    ident_view("Ok"@),
                    group_view(
                        DelimiterIr::Parenthesis,
                        cg2_view(facade, seq!["value"@, kind, "new"@]) + seq![
                            group_view(DelimiterIr::Parenthesis, seq![ident_view(binding)]),
                        ],
                    ),
                ],
                inactive,
                false,
            ),
        ),
    ]
}

/// The thread-safe counterpart of [`local_get_view`].
pub open spec fn thread_get_view(
    facade: Seq<TokenView>,
    name: Seq<char>,
    kind: Seq<char>,
    pattern: Seq<TokenView>,
    binding: Seq<char>,
    inactive: Seq<TokenView>,
) -> Seq<TokenView> {
    seq![ident_view("fn"@), ident_view(name), punct_view('<', false)] + lifetime_view(adapter_lifetime()) + seq![
        punct_view('>', false),
        group_view(
            DelimiterIr::Parenthesis,
            seq![ident_view("target"@), punct_view(':', false)] + thread_type_view(facade, kind, adapter_lifetime()),
        ),
        punct_view('-', true),
        punct_view('>', false),
    ] + result_type_view(thread_type_view(facade, kind, adapter_lifetime()), access_error_view(facade)) + seq![
        group_view(
            DelimiterIr::Brace,
            downcast_line_view() + match_view(
                pattern,
                seq![
                    ident_view("Ok"@),
                    group_view(
                        DelimiterIr::Parenthesis,
                        cg2_view(facade, seq!["value"@, kind]) + colons_view() + seq![punct_view('<', false)]
                            + cg2_view(facade, seq!["value"@, "ThreadSafe"@]) + seq![punct_view('>', false)]
                            + colons_view() + seq![
                            ident_view("new"@),
                            group_view(DelimiterIr::Parenthesis, seq![ident_view(binding)]),
                        ],
                    ),
                ],
                inactive,
                true,
            ),
        ),
    ]
}

/// `{ *binding = replacement; Ok(()) }`.
pub open spec fn assign_arm_view(binding: Seq<char>) -> Seq<TokenView> {
    seq![
        group_view(
            DelimiterIr::Brace,
            seq![
                punct_view('*', false),
                ident_view(binding),
                punct_view('=', false),
                ident_view("replacement"@),
                punct_view(';', false),
                ident_view("Ok"@),
                group_view(DelimiterIr::Parenthesis, unit_view()),
            ],
        ),
    ]
}

/// The parameters of a setter.
pub open spec fn set_parameters_view(facade: Seq<TokenView>, thread_safe: bool) -> Seq<TokenView> {
    if thread_safe {
        seq![ident_view("target"@), punct_view(':', false)] + thread_type_view(facade, "DynamicMut"@, "_"@) + seq![
            punct_view(',', false),
            ident_view("replacement"@),
            punct_view(':', false),
        ] + cg2_view(facade, seq!["value"@, "DynamicOwned"@]) + seq![punct_view('<', false)] + cg2_view(
            facade,
            seq!["value"@, "ThreadSafe"@],
        ) + seq![punct_view('>', false), punct_view(',', false)]
    } else {
        seq![ident_view("target"@), punct_view(':', false)] + local_type_view(facade, "ReflectedMut"@, "_"@) + seq![
            punct_view(',', false),
            ident_view("replacement"@),
            punct_view(':', false),
        ] + cg2_view(facade, seq!["value"@, "ReflectedOwned"@])
    }
}

/// `let replacement = ..downcast::<ty>(..).unwrap_or_else(..);`.
pub open spec fn replacement_line_view(facade: Seq<TokenView>, ty: Seq<TokenView>, thread_safe: bool) -> Seq<
    TokenView,
> {
    if thread_safe {
        seq![
            ident_view("let"@),
            ident_view("replacement"@),
            punct_view('=', false),
            ident_view("replacement"@),
            punct_view('.', false),
            ident_view("downcast"@),
        ] + colons_view() + seq![punct_view('<', false)] + ty + seq![
            punct_view('>', false),
            group_view(DelimiterIr::Parenthesis, Seq::empty()),
        ] + unwrap_unreachable_view("\"validated enum field value\""@) + seq![punct_view(';', false)]
    } else {
        seq![ident_view("let"@), ident_view("replacement"@), punct_view('=', false)] + cg2_view(
            facade,
            seq!["value"@, "ReflectedOwned"@, "downcast"@],
        ) + colons_view() + seq![punct_view('<', false)] + ty + seq![
            punct_view('>', false),
            group_view(DelimiterIr::Parenthesis, seq![ident_view("replacement"@)]),
        ] + unwrap_unreachable_view("\"validated enum field value\""@) + seq![punct_view(';', false)]
    }
}

/// The setter of one field, local or thread-safe.
pub open spec fn set_view(
    facade: Seq<TokenView>,
    name: Seq<char>,
    ty: Seq<TokenView>,
    pattern: Seq<TokenView>,
    binding: Seq<char>,
    inactive: Seq<TokenView>,
    thread_safe: bool,
) -> Seq<TokenView> {
    seq![
        ident_view("fn"@),
        ident_view(name),
        group_view(DelimiterIr::Parenthesis, set_parameters_view(facade, thread_safe)),
        punct_view('-', true),
        punct_view('>', false),
    ] + result_type_view(unit_view(), access_error_view(facade)) + seq![
        group_view(
            DelimiterIr::Brace,
            downcast_line_view() + replacement_line_view(facade, ty, thread_safe) + match_view(
                pattern,
                assign_arm_view(binding),
                inactive,
                false,
            ),
        ),
    ]
}

/// The set preflight of one field: whether its variant is active.
pub open spec fn preflight_view(
    facade: Seq<TokenView>,
    name: Seq<char>,
    target_type: Seq<TokenView>,
    active: Seq<TokenView>,
    inactive: Seq<TokenView>,
) -> Seq<TokenView> {
    seq![
        ident_view("fn"@),
        ident_view(name),
        group_view(
            DelimiterIr::Parenthesis,
            seq![ident_view("target"@), punct_view(':', false), punct_view('&', false)] + target_type,
        ),
        punct_view('-', true),
        punct_view('>', false),
    ] + result_type_view(unit_view(), access_error_view(facade)) + seq![
        group_view(
            DelimiterIr::Brace,
            downcast_ref_line_view() + match_view(
                active,
                seq![ident_view("Ok"@), group_view(DelimiterIr::Parenthesis, unit_view())],
                inactive,
                false,
            ),
        ),
    ]
}

/// The name of one generated adapter of a variant field.
pub open spec fn adapter_name(prefix: Seq<char>, variant: usize, field: usize, suffix: Seq<char>) -> Seq<char> {
    prefix + decimal(variant as nat) + "_field_"@ + decimal(field as nat) + suffix
}

/// The local adapters of one field: get, get_mut, set and the set
/// preflight.
pub open spec fn local_adapters_view(
    facade: Seq<TokenView>,
    v: usize,
    f: usize,
    ty: Seq<TokenView>,
    pattern: Seq<TokenView>,
    active: Seq<TokenView>,
    binding: Seq<char>,
    inactive: Seq<TokenView>,
) -> Seq<TokenView> {
    local_get_view(
        facade,
        adapter_name("__qubit_reflect_get_variant_"@, v, f, ""@),
        "ReflectedRef"@,
        pattern,
        binding,
        inactive,
    ) + local_get_view(
        facade,
        adapter_name("__qubit_reflect_get_mut_variant_"@, v, f, ""@),
        "ReflectedMut"@,
        pattern,
        binding,
        inactive,
    ) + set_view(
        facade,
        adapter_name("__qubit_reflect_set_variant_"@, v, f, ""@),
        ty,
        pattern,
        binding,
        inactive,
        false,
    ) + preflight_view(
        facade,
        adapter_name("__qubit_reflect_preflight_set_variant_"@, v, f, ""@),
        local_type_view(facade, "ReflectedMut"@, "_"@),
        active,
        inactive,
    )
}

/// The thread-safe counterparts of [`local_adapters_view`].
pub open spec fn thread_adapters_view(
    facade: Seq<TokenView>,
    v: usize,
    f: usize,
    ty: Seq<TokenView>,
    pattern: Seq<TokenView>,
    active: Seq<TokenView>,
    binding: Seq<char>,
    inactive: Seq<TokenView>,
) -> Seq<TokenView> {
    thread_get_view(
        facade,
        adapter_name("__qubit_reflect_get_variant_"@, v, f, "_thread_safe"@),
        "DynamicRef"@,
        pattern,
        binding,
        inactive,
    ) + thread_get_view(
        facade,
        adapter_name("__qubit_reflect_get_mut_variant_"@, v, f, "_thread_safe"@),
        "DynamicMut"@,
        pattern,
        binding,
        inactive,
    ) + set_view(
        facade,
        adapter_name("__qubit_reflect_set_variant_"@, v, f, "_thread_safe"@),
        ty,
        pattern,
        binding,
        inactive,
        true,
    ) + preflight_view(
        facade,
        adapter_name("__qubit_reflect_preflight_set_variant_"@, v, f, "_thread_safe"@),
        thread_type_view(facade, "DynamicMut"@, "_"@) + seq![punct_view(',', false)],
        active,
        inactive,
    )
}

/// The adapters of one field of a variant: get, get_mut, set and the set
/// preflight, and their thread-safe counterparts where asked.
pub open spec fn field_adapters_view(
    facade: Seq<TokenView>,
    variant: VariantIr,
    field: FieldIr,
    thread_safe: bool,
) -> Seq<TokenView> {
    let pattern = field_pattern_view(variant, field);
    let active = active_pattern_view(variant);
    let binding = binding_name(field.index);
    let inactive = inactive_view(facade, variant, field);
    let ty = tokens_view(field.ty.tokens@);
    local_adapters_view(facade, variant.index, field.index, ty, pattern, active, binding, inactive) + if thread_safe {
        thread_adapters_view(facade, variant.index, field.index, ty, pattern, active, binding, inactive)
    } else {
        Seq::empty()
    }
}

/// `fn __qubit_reflect_is_variant_N(value: ReflectedRef<'_>) -> Result<bool, TypeMismatch>`
/// answering whether the variant is active.
pub open spec fn active_check_view(facade: Seq<TokenView>, variant: VariantIr) -> Seq<TokenView> {
    seq![
        ident_view("fn"@),
        ident_view("__qubit_reflect_is_variant_"@ + decimal(variant.index as nat)),
        group_view(
            DelimiterIr::Parenthesis,
            seq![ident_view("value"@), punct_view(':', false)] + local_type_view(facade, "ReflectedRef"@, "_"@),
        ),
        punct_view('-', true),
        punct_view('>', false),
    ] + result_type_view(seq![ident_view("bool"@)], cg2_view(facade, seq!["error"@, "TypeMismatch"@])) + seq![
        group_view(
            DelimiterIr::Brace,
            seq![
                ident_view("let"@),
                ident_view("value"@),
                punct_view('=', false),
                ident_view("value"@),
                punct_view('.', false),
                ident_view("downcast"@),
            ] + colons_view() + seq![
                punct_view('<', false),
                ident_view("Self"@),
                punct_view('>', false),
                group_view(DelimiterIr::Parenthesis, Seq::empty()),
            ] + unwrap_unreachable_view("\"validated enum target\""@) + seq![
                punct_view(';', false),
                ident_view("Ok"@),
                group_view(
                    DelimiterIr::Parenthesis,
                    seq![
                        ident_view("matches"@),
                        punct_view('!', false),
                        group_view(
                            DelimiterIr::Parenthesis,
                            seq![ident_view("value"@), punct_view(',', false)] + active_pattern_view(variant),
                        ),
                    ],
                ),
            ],
        ),
    ]
}

/// The definitions generated for one variant: its active check, then the
/// adapters of each of its fields (a unit variant has none).
pub open spec fn variant_adapters_view(facade: Seq<TokenView>, variant: VariantIr, thread_safe: bool) -> Seq<
    Seq<TokenView>,
> {
    seq![active_check_view(facade, variant)] + if variant.kind is Unit {
        Seq::empty()
    } else {
        variant.fields@.map_values(|field: FieldIr| field_adapters_view(facade, variant, field, thread_safe))
    }
}

// ---------------------------------------------------------------------------
// Builders
// ---------------------------------------------------------------------------

fn cg2_tokens(facade: &Vec<TokenTreeIr>, first: &str, second: &str) -> (tokens: Vec<TokenTreeIr>)
    ensures
        tokens_view(tokens@) == cg2_view(tokens_view(facade@), seq![first@, second@]),
{
    let names: [&str; 4] = ["__private", "codegen_v2", first, second];
    assert(names@.map_values(|name: &str| name@) =~= seq!["__private"@, "codegen_v2"@] + seq![first@, second@]);
    path_tokens(facade, names.as_slice())
}

fn cg2_tokens3(facade: &Vec<TokenTreeIr>, first: &str, second: &str, third: &str) -> (tokens: Vec<TokenTreeIr>)
    ensures
        tokens_view(tokens@) == cg2_view(tokens_view(facade@), seq![first@, second@, third@]),
{
    let names: [&str; 5] = ["__private", "codegen_v2", first, second, third];
    assert(names@.map_values(|name: &str| name@) =~= seq!["__private"@, "codegen_v2"@] + seq![
        first@,
        second@,
        third@,
    ]);
    path_tokens(facade, names.as_slice())
}

fn push_lifetime(tokens: &mut Vec<TokenTreeIr>, name: &str)
    ensures
        tokens_view(final(tokens)@) == tokens_view(old(tokens)@) + lifetime_view(name@),
{
    let ghost start = tokens_view(tokens@);
    push_punct(tokens, '\'', true);
    push_ident(tokens, name);
    assert(tokens_view(tokens@) =~= start + lifetime_view(name@));
}

fn push_result_type(tokens: &mut Vec<TokenTreeIr>, ok: &Vec<TokenTreeIr>, error: &Vec<TokenTreeIr>)
    ensures
        tokens_view(final(tokens)@) == tokens_view(old(tokens)@) + result_type_view(tokens_view(ok@), tokens_view(error@)),
{
    let ghost start = tokens_view(tokens@);
    let names: [&str; 3] = ["core", "result", "Result"];
    assert(names@.map_values(|name: &str| name@) =~= seq!["core"@, "result"@, "Result"@]);
    push_std_path(tokens, names.as_slice());
    push_punct(tokens, '<', false);
    append_tokens(tokens, ok);
    push_punct(tokens, ',', false);
    append_tokens(tokens, error);
    push_punct(tokens, '>', false);
    assert(tokens_view(tokens@) =~= start + result_type_view(tokens_view(ok@), tokens_view(error@)));
}

fn local_type(facade: &Vec<TokenTreeIr>, kind: &str, lifetime: &str) -> (tokens: Vec<TokenTreeIr>)
    ensures
        tokens_view(tokens@) == local_type_view(tokens_view(facade@), kind@, lifetime@),
{
    let mut tokens = cg2_tokens(facade, "value", kind);
    let ghost start = tokens_view(tokens@);
    push_punct(&mut tokens, '<', false);
    push_lifetime(&mut tokens, lifetime);
    push_punct(&mut tokens, '>', false);
    assert(tokens_view(tokens@) =~= local_type_view(tokens_view(facade@), kind@, lifetime@));
    tokens
}

fn thread_type(facade: &Vec<TokenTreeIr>, kind: &str, lifetime: &str) -> (tokens: Vec<TokenTreeIr>)
    ensures
        tokens_view(tokens@) == thread_type_view(tokens_view(facade@), kind@, lifetime@),
{
    let mut tokens = cg2_tokens(facade, "value", kind);
    push_punct(&mut tokens, '<', false);
    push_lifetime(&mut tokens, lifetime);
    push_punct(&mut tokens, ',', false);
    let safe = cg2_tokens(facade, "value", "ThreadSafe");
    append_tokens(&mut tokens, &safe);
    push_punct(&mut tokens, '>', false);
    assert(tokens_view(tokens@) =~= thread_type_view(tokens_view(facade@), kind@, lifetime@));
    tokens
}

fn unit_tokens() -> (tokens: Vec<TokenTreeIr>)
    ensures
        tokens_view(tokens@) == unit_view(),
{
    let mut tokens = empty_tokens();
    push_group(&mut tokens, DelimiterIr::Parenthesis, empty_tokens());
    assert(tokens_view(tokens@) =~= unit_view());
    tokens
}

fn push_self_turbofish_call(tokens: &mut Vec<TokenTreeIr>)
    ensures
        tokens_view(final(tokens)@) == tokens_view(old(tokens)@) + colons_view() + seq![
            punct_view('<', false),
            ident_view("Self"@),
            punct_view('>', false),
            group_view(DelimiterIr::Parenthesis, Seq::empty()),
        ],
{
    let ghost start = tokens_view(tokens@);
    push_colons(tokens);
    push_punct(tokens, '<', false);
    push_ident(tokens, "Self");
    push_punct(tokens, '>', false);
    push_group(tokens, DelimiterIr::Parenthesis, empty_tokens());
    assert(tokens_view(tokens@) =~= start + colons_view() + seq![
        punct_view('<', false),
        ident_view("Self"@),
        punct_view('>', false),
        group_view(DelimiterIr::Parenthesis, Seq::empty()),
    ]);
}

fn push_downcast_line(tokens: &mut Vec<TokenTreeIr>)
    ensures
        tokens_view(final(tokens)@) == tokens_view(old(tokens)@) + downcast_line_view(),
{
    let ghost start = tokens_view(tokens@);
    push_ident(tokens, "let");
    push_ident(tokens, "value");
    push_punct(tokens, '=', false);
    push_ident(tokens, "target");
    push_punct(tokens, '.', false);
    push_ident(tokens, "downcast");
    push_self_turbofish_call(tokens);
    push_unwrap_unreachable(tokens, "\"validated enum target\"");
    push_punct(tokens, ';', false);
    assert(tokens_view(tokens@) =~= start + downcast_line_view());
}

fn push_downcast_ref_line(tokens: &mut Vec<TokenTreeIr>)
    ensures
        tokens_view(final(tokens)@) == tokens_view(old(tokens)@) + downcast_ref_line_view(),
{
    let ghost start = tokens_view(tokens@);
    push_ident(tokens, "let");
    push_ident(tokens, "value");
    push_punct(tokens, '=', false);
    push_ident(tokens, "target");
    push_punct(tokens, '.', false);
    push_ident(tokens, "downcast_ref");
    push_self_turbofish_call(tokens);
    push_punct(tokens, '.', false);
    push_ident(tokens, "unwrap_or_else");
    let mut closure = empty_tokens();
    push_punct(&mut closure, '|', true);
    push_punct(&mut closure, '|', false);
    push_unreachable(&mut closure, "\"validated enum target\"");
    let ghost closure_view = tokens_view(closure@);
    assert(closure_view =~= seq![punct_view('|', true), punct_view('|', false)] + unreachable_view(
        "\"validated enum target\""@,
    ));
    push_group(tokens, DelimiterIr::Parenthesis, closure);
    push_punct(tokens, ';', false);
    assert(tokens_view(tokens@) =~= start + downcast_ref_line_view());
}

fn push_match(
    tokens: &mut Vec<TokenTreeIr>,
    pattern: &Vec<TokenTreeIr>,
    arm: Vec<TokenTreeIr>,
    inactive: &Vec<TokenTreeIr>,
    trailing: bool,
)
    ensures
        tokens_view(final(tokens)@) == tokens_view(old(tokens)@) + match_view(
            tokens_view(pattern@),
            tokens_view(arm@),
            tokens_view(inactive@),
            trailing,
        ),
{
    let ghost start = tokens_view(tokens@);
    let ghost arm_view = tokens_view(arm@);
    push_ident(tokens, "match");
    push_ident(tokens, "value");
    let mut body = empty_tokens();
    append_tokens(&mut body, pattern);
    push_punct(&mut body, '=', true);
    push_punct(&mut body, '>', false);
    append_tokens(&mut body, &arm);
    push_punct(&mut body, ',', false);
    push_ident(&mut body, "_");
    push_punct(&mut body, '=', true);
    push_punct(&mut body, '>', false);
    push_ident(&mut body, "Err");
    let mut error = empty_tokens();
    append_tokens(&mut error, inactive);
    push_group(&mut body, DelimiterIr::Parenthesis, error);
    if trailing {
        push_punct(&mut body, ',', false);
    }
    let ghost body_view = tokens_view(body@);
    assert(body_view =~= tokens_view(pattern@) + seq![punct_view('=', true), punct_view('>', false)] + arm_view
        + seq![
        punct_view(',', false),
        ident_view("_"@),
        punct_view('=', true),
        punct_view('>', false),
        ident_view("Err"@),
        group_view(DelimiterIr::Parenthesis, tokens_view(inactive@)),
    ] + if trailing {
        seq![punct_view(',', false)]
    } else {
        Seq::<TokenView>::empty()
    });
    push_group(tokens, DelimiterIr::Brace, body);
    assert(tokens_view(tokens@) =~= start + match_view(
        tokens_view(pattern@),
        arm_view,
        tokens_view(inactive@),
        trailing,
    ));
}

fn push_variant_path(tokens: &mut Vec<TokenTreeIr>, variant: &VariantIr)
    ensures
        tokens_view(final(tokens)@) == tokens_view(old(tokens)@) + variant_path_view(*variant),
{
    let ghost start = tokens_view(tokens@);
    push_ident(tokens, "Self");
    push_colons(tokens);
    push_ident(tokens, variant.name.as_str());
    assert(tokens_view(tokens@) =~= start + variant_path_view(*variant));
}

fn rest_tokens() -> (tokens: Vec<TokenTreeIr>)
    ensures
        tokens_view(tokens@) == rest_view(),
{
    let mut tokens = empty_tokens();
    push_punct(&mut tokens, '.', true);
    push_punct(&mut tokens, '.', false);
    assert(tokens_view(tokens@) =~= rest_view());
    tokens
}

/// Emits the pattern that matches a variant whatever its fields hold.
pub fn active_pattern(variant: &VariantIr) -> (tokens: Vec<TokenTreeIr>)
    ensures
        tokens_view(tokens@) == active_pattern_view(*variant),
{
    let mut tokens = empty_tokens();
    push_variant_path(&mut tokens, variant);
    match variant.kind {
        VariantKindIr::Unit => {},
        VariantKindIr::Tuple => push_group(&mut tokens, DelimiterIr::Parenthesis, rest_tokens()),
        VariantKindIr::Struct => push_group(&mut tokens, DelimiterIr::Brace, rest_tokens()),
    }
    assert(tokens_view(tokens@) =~= active_pattern_view(*variant));
    tokens
}

/// Emits the pattern that binds one field of a variant.
pub fn field_pattern(variant: &VariantIr, field: &FieldIr) -> (tokens: Vec<TokenTreeIr>)
    requires
        variant.kind == VariantKindIr::Struct ==> field.name is Some,
    ensures
        tokens_view(tokens@) == field_pattern_view(*variant, *field),
{
    let binding = join2("__qubit_reflect_value_", decimal_string(field.index).as_str());
    let mut tokens = empty_tokens();
    push_variant_path(&mut tokens, variant);
    let ghost path = tokens_view(tokens@);
    match variant.kind {
        VariantKindIr::Struct => {
            let mut inner = empty_tokens();
            match &field.name {
                Some(name) => push_ident(&mut inner, name.as_str()),
                None => {},
            }
            push_punct(&mut inner, ':', false);
            push_ident(&mut inner, binding.as_str());
            push_punct(&mut inner, ',', false);
            let rest = rest_tokens();
            append_tokens(&mut inner, &rest);
            let ghost inner_view = tokens_view(inner@);
            assert(inner_view =~= seq![
                ident_view(crate::construction::field_name(*field)),
                punct_view(':', false),
                ident_view(binding_name(field.index)),
                punct_view(',', false),
            ] + rest_view());
            push_group(&mut tokens, DelimiterIr::Brace, inner);
        },
        _ => {
            let ghost items = tuple_bindings(variant.fields@.len(), field.index);
            let mut inner = empty_tokens();
            let mut position: usize = 0;
            assert(items.take(0) =~= Seq::<Seq<TokenView>>::empty());
            while position < variant.fields.len()
                invariant
                    position <= variant.fields@.len(),
                    items == tuple_bindings(variant.fields@.len(), field.index),
                    binding@ == binding_name(field.index),
                    tokens_view(inner@) == comma_separated(items.take(position as int)),
                decreases variant.fields.len() - position,
            {
                let ghost before = tokens_view(inner@);
                if position > 0 {
                    push_punct(&mut inner, ',', false);
                }
                if position == field.index {
                    push_ident(&mut inner, binding.as_str());
                } else {
                    push_ident(&mut inner, "_");
                }
                proof {
                    let next = items.take(position + 1);
                    assert(next.drop_last() =~= items.take(position as int));
                    assert(next.last() == items[position as int]);
                    if position == 0 {
                        assert(tokens_view(inner@) =~= next[0]);
                    } else {
                        assert(tokens_view(inner@) =~= before + seq![punct_view(',', false)] + next.last());
                    }
                }
                position += 1;
            }
            assert(items.take(position as int) =~= items);
            push_group(&mut tokens, DelimiterIr::Parenthesis, inner);
        },
    }
    assert(tokens_view(tokens@) =~= field_pattern_view(*variant, *field));
    tokens
}

fn quoted_literal(text: &str) -> (literal: String)
    ensures
        literal@ == quoted(text@),
{
    join3("\"", text, "\"")
}

fn suffixed_index(index: usize) -> (literal: String)
    ensures
        literal@ == decimal(index as nat) + "usize"@,
{
    join2(decimal_string(index).as_str(), "usize")
}

fn self_identity() -> (tokens: Vec<TokenTreeIr>)
    ensures
        tokens_view(tokens@) == self_identity_view(),
{
    let mut arguments = empty_tokens();
    let type_id: [&str; 3] = ["std", "any", "TypeId"];
    assert(type_id@.map_values(|name: &str| name@) =~= seq!["std"@, "any"@, "TypeId"@]);
    push_std_path(&mut arguments, type_id.as_slice());
    push_colons(&mut arguments);
    push_ident(&mut arguments, "of");
    push_self_turbofish_call(&mut arguments);
    push_punct(&mut arguments, ',', false);
    let ghost first = tokens_view(arguments@);
    let name_path: [&str; 3] = ["std", "any", "type_name"];
    assert(name_path@.map_values(|name: &str| name@) =~= seq!["std"@, "any"@, "type_name"@]);
    push_std_path(&mut arguments, name_path.as_slice());
    push_self_turbofish_call(&mut arguments);
    push_punct(&mut arguments, ',', false);
    assert(tokens_view(arguments@) =~= first + self_type_call_view("type_name"@) + seq![punct_view(',', false)]);
    assert(tokens_view(arguments@) =~= self_identity_view());
    arguments
}

fn field_position(variant: &VariantIr, field: &FieldIr) -> (tokens: Vec<TokenTreeIr>)
    ensures
        tokens_view(tokens@) == field_position_view(*variant, *field),
{
    let mut arguments = empty_tokens();
    push_literal(&mut arguments, suffixed_index(field.index));
    push_punct(&mut arguments, ',', false);
    let ghost before_name = tokens_view(arguments@);
    match &field.name {
        Some(name) => {
            push_ident(&mut arguments, "Some");
            let mut quoted_name = empty_tokens();
            push_literal(&mut quoted_name, quoted_literal(name.as_str()));
            push_group(&mut arguments, DelimiterIr::Parenthesis, quoted_name);
        },
        None => push_ident(&mut arguments, "None"),
    }
    assert(tokens_view(arguments@) =~= before_name + rust_name_view(*field));
    push_punct(&mut arguments, ',', false);
    push_literal(&mut arguments, suffixed_index(variant.index));
    push_punct(&mut arguments, ',', false);
    push_literal(&mut arguments, quoted_literal(variant.name.as_str()));
    push_punct(&mut arguments, ',', false);
    assert(tokens_view(arguments@) =~= field_position_view(*variant, *field));
    arguments
}

/// Emits the error reported when a field is reached while another variant
/// is active.
pub fn inactive(facade: &Vec<TokenTreeIr>, variant: &VariantIr, field: &FieldIr) -> (tokens: Vec<TokenTreeIr>)
    ensures
        tokens_view(tokens@) == inactive_view(tokens_view(facade@), *variant, *field),
{
    let ghost facade_view = tokens_view(facade@);
    let mut arguments = self_identity();
    let position = field_position(variant, field);
    append_tokens(&mut arguments, &position);
    let ghost arguments_view = tokens_view(arguments@);
    assert(arguments_view == self_identity_view() + field_position_view(*variant, *field));
    let mut identity = cg2_tokens3(facade, "access", "FieldIdentity", "new_variant");
    let ghost identity_path = tokens_view(identity@);
    push_group(&mut identity, DelimiterIr::Parenthesis, arguments);
    push_punct(&mut identity, ',', false);
    let ghost identity_view = tokens_view(identity@);
    assert(identity_view =~= identity_path + seq![
        group_view(DelimiterIr::Parenthesis, arguments_view),
        punct_view(',', false),
    ]);
    let mut tokens = cg2_tokens3(facade, "access", "FieldAccessError", "inactive_variant");
    push_group(&mut tokens, DelimiterIr::Parenthesis, identity);
    assert(tokens_view(tokens@) =~= inactive_view(facade_view, *variant, *field));
    tokens
}

fn push_fn_header_open(tokens: &mut Vec<TokenTreeIr>, name: &str)
    ensures
        tokens_view(final(tokens)@) == tokens_view(old(tokens)@) + seq![ident_view("fn"@), ident_view(name@)],
{
    let ghost start = tokens_view(tokens@);
    push_ident(tokens, "fn");
    push_ident(tokens, name);
    assert(tokens_view(tokens@) =~= start + seq![ident_view("fn"@), ident_view(name@)]);
}

fn push_arrow(tokens: &mut Vec<TokenTreeIr>)
    ensures
        tokens_view(final(tokens)@) == tokens_view(old(tokens)@) + seq![punct_view('-', true), punct_view('>', false)],
{
    let ghost start = tokens_view(tokens@);
    push_punct(tokens, '-', true);
    push_punct(tokens, '>', false);
    assert(tokens_view(tokens@) =~= start + seq![punct_view('-', true), punct_view('>', false)]);
}

fn push_get(
    tokens: &mut Vec<TokenTreeIr>,
    facade: &Vec<TokenTreeIr>,
    name: &str,
    kind: &str,
    pattern: &Vec<TokenTreeIr>,
    binding: &str,
    inactive: &Vec<TokenTreeIr>,
    thread_safe: bool,
)
    ensures
        tokens_view(final(tokens)@) == tokens_view(old(tokens)@) + if thread_safe {
            thread_get_view(
                tokens_view(facade@),
                name@,
                kind@,
                tokens_view(pattern@),
                binding@,
                tokens_view(inactive@),
            )
        } else {
            local_get_view(
                tokens_view(facade@),
                name@,
                kind@,
                tokens_view(pattern@),
                binding@,
                tokens_view(inactive@),
            )
        },
{
    let ghost start = tokens_view(tokens@);
    let ghost facade_view = tokens_view(facade@);
    let view_type = if thread_safe {
        thread_type(facade, kind, "__qubit_reflect")
    } else {
        local_type(facade, kind, "__qubit_reflect")
    };
    let ghost view_type_view = tokens_view(view_type@);
    push_fn_header_open(tokens, name);
    push_punct(tokens, '<', false);
    push_lifetime(tokens, "__qubit_reflect");
    push_punct(tokens, '>', false);
    let mut parameters = empty_tokens();
    push_ident(&mut parameters, "target");
    push_punct(&mut parameters, ':', false);
    append_tokens(&mut parameters, &view_type);
    let ghost parameters_view = tokens_view(parameters@);
    assert(parameters_view =~= seq![ident_view("target"@), punct_view(':', false)] + view_type_view);
    push_group(tokens, DelimiterIr::Parenthesis, parameters);
    push_arrow(tokens);
    let error = cg2_tokens(facade, "access", "FieldAccessError");
    push_result_type(tokens, &view_type, &error);
    let ghost header = tokens_view(tokens@);
    let mut wrapped = empty_tokens();
    if thread_safe {
        let mut path = cg2_tokens(facade, "value", kind);
        push_colons(&mut path);
        push_punct(&mut path, '<', false);
        let safe = cg2_tokens(facade, "value", "ThreadSafe");
        append_tokens(&mut path, &safe);
        push_punct(&mut path, '>', false);
        push_colons(&mut path);
        push_ident(&mut path, "new");
        let ghost path_view_now = tokens_view(path@);
        append_tokens(&mut wrapped, &path);
    } else {
        let path = cg2_tokens3(facade, "value", kind, "new");
        append_tokens(&mut wrapped, &path);
    }
    let mut bound = empty_tokens();
    push_ident(&mut bound, binding);
    push_group(&mut wrapped, DelimiterIr::Parenthesis, bound);
    let ghost wrapped_view = tokens_view(wrapped@);
    let mut arm = empty_tokens();
    push_ident(&mut arm, "Ok");
    push_group(&mut arm, DelimiterIr::Parenthesis, wrapped);
    let ghost arm_view = tokens_view(arm@);
    let mut body = empty_tokens();
    push_downcast_line(&mut body);
    push_match(&mut body, pattern, arm, inactive, thread_safe);
    let ghost body_view = tokens_view(body@);
    push_group(tokens, DelimiterIr::Brace, body);
    proof {
        if thread_safe {
            assert(wrapped_view =~= cg2_view(facade_view, seq!["value"@, kind@]) + colons_view() + seq![
                punct_view('<', false),
            ] + cg2_view(facade_view, seq!["value"@, "ThreadSafe"@]) + seq![punct_view('>', false)] + colons_view()
                + seq![ident_view("new"@), group_view(DelimiterIr::Parenthesis, seq![ident_view(binding@)])]);
        } else {
            assert(wrapped_view =~= cg2_view(facade_view, seq!["value"@, kind@, "new"@]) + seq![
                group_view(DelimiterIr::Parenthesis, seq![ident_view(binding@)]),
            ]);
        }
        assert(arm_view =~= seq![ident_view("Ok"@), group_view(DelimiterIr::Parenthesis, wrapped_view)]);
        assert(header =~= start + seq![ident_view("fn"@), ident_view(name@), punct_view('<', false)]
            + lifetime_view(adapter_lifetime()) + seq![
            punct_view('>', false),
            group_view(DelimiterIr::Parenthesis, parameters_view),
            punct_view('-', true),
            punct_view('>', false),
        ] + result_type_view(view_type_view, access_error_view(facade_view)));
    }
    assert(tokens_view(tokens@) =~= start + if thread_safe {
        thread_get_view(facade_view, name@, kind@, tokens_view(pattern@), binding@, tokens_view(inactive@))
    } else {
        local_get_view(facade_view, name@, kind@, tokens_view(pattern@), binding@, tokens_view(inactive@))
    });
}

fn assign_arm(binding: &str) -> (tokens: Vec<TokenTreeIr>)
    ensures
        tokens_view(tokens@) == assign_arm_view(binding@),
{
    let mut inner = empty_tokens();
    push_punct(&mut inner, '*', false);
    push_ident(&mut inner, binding);
    push_punct(&mut inner, '=', false);
    push_ident(&mut inner, "replacement");
    push_punct(&mut inner, ';', false);
    push_ident(&mut inner, "Ok");
    push_group(&mut inner, DelimiterIr::Parenthesis, unit_tokens());
    let ghost inner_view = tokens_view(inner@);
    assert(inner_view =~= seq![
        punct_view('*', false),
        ident_view(binding@),
        punct_view('=', false),
        ident_view("replacement"@),
        punct_view(';', false),
        ident_view("Ok"@),
        group_view(DelimiterIr::Parenthesis, unit_view()),
    ]);
    let mut tokens = empty_tokens();
    push_group(&mut tokens, DelimiterIr::Brace, inner);
    assert(tokens_view(tokens@) =~= assign_arm_view(binding@));
    tokens
}

fn set_parameters(facade: &Vec<TokenTreeIr>, thread_safe: bool) -> (tokens: Vec<TokenTreeIr>)
    ensures
        tokens_view(tokens@) == set_parameters_view(tokens_view(facade@), thread_safe),
{
    let ghost facade_view = tokens_view(facade@);
    let mut parameters = empty_tokens();
    push_ident(&mut parameters, "target");
    push_punct(&mut parameters, ':', false);
    if thread_safe {
        let target = thread_type(facade, "DynamicMut", "_");
        append_tokens(&mut parameters, &target);
    } else {
        let target = local_type(facade, "ReflectedMut", "_");
        append_tokens(&mut parameters, &target);
    }
    push_punct(&mut parameters, ',', false);
    push_ident(&mut parameters, "replacement");
    push_punct(&mut parameters, ':', false);
    if thread_safe {
        let owned = cg2_tokens(facade, "value", "DynamicOwned");
        append_tokens(&mut parameters, &owned);
        push_punct(&mut parameters, '<', false);
        let safe = cg2_tokens(facade, "value", "ThreadSafe");
        append_tokens(&mut parameters, &safe);
        push_punct(&mut parameters, '>', false);
        push_punct(&mut parameters, ',', false);
    } else {
        let owned = cg2_tokens(facade, "value", "ReflectedOwned");
        append_tokens(&mut parameters, &owned);
    }
    assert(tokens_view(parameters@) =~= set_parameters_view(facade_view, thread_safe));
    parameters
}

fn replacement_line(facade: &Vec<TokenTreeIr>, ty: &Vec<TokenTreeIr>, thread_safe: bool) -> (tokens: Vec<TokenTreeIr>)
    ensures
        tokens_view(tokens@) == replacement_line_view(tokens_view(facade@), tokens_view(ty@), thread_safe),
{
    let mut body = empty_tokens();
    push_ident(&mut body, "let");
    push_ident(&mut body, "replacement");
    push_punct(&mut body, '=', false);
    if thread_safe {
        push_ident(&mut body, "replacement");
        push_punct(&mut body, '.', false);
        push_ident(&mut body, "downcast");
    } else {
        let downcast = cg2_tokens3(facade, "value", "ReflectedOwned", "downcast");
        append_tokens(&mut body, &downcast);
    }
    push_colons(&mut body);
    push_punct(&mut body, '<', false);
    append_tokens(&mut body, ty);
    push_punct(&mut body, '>', false);
    if thread_safe {
        push_group(&mut body, DelimiterIr::Parenthesis, empty_tokens());
    } else {
        let mut argument = empty_tokens();
        push_ident(&mut argument, "replacement");
        let ghost argument_view = tokens_view(argument@);
        assert(argument_view =~= seq![ident_view("replacement"@)]);
        push_group(&mut body, DelimiterIr::Parenthesis, argument);
    }
    push_unwrap_unreachable(&mut body, "\"validated enum field value\"");
    push_punct(&mut body, ';', false);
    assert(tokens_view(body@) =~= replacement_line_view(tokens_view(facade@), tokens_view(ty@), thread_safe));
    body
}

fn push_set(
    tokens: &mut Vec<TokenTreeIr>,
    facade: &Vec<TokenTreeIr>,
    name: &str,
    ty: &Vec<TokenTreeIr>,
    pattern: &Vec<TokenTreeIr>,
    binding: &str,
    inactive: &Vec<TokenTreeIr>,
    thread_safe: bool,
)
    ensures
        tokens_view(final(tokens)@) == tokens_view(old(tokens)@) + set_view(
            tokens_view(facade@),
            name@,
            tokens_view(ty@),
            tokens_view(pattern@),
            binding@,
            tokens_view(inactive@),
            thread_safe,
        ),
{
    let ghost start = tokens_view(tokens@);
    let ghost facade_view = tokens_view(facade@);
    push_fn_header_open(tokens, name);
    push_group(tokens, DelimiterIr::Parenthesis, set_parameters(facade, thread_safe));
    push_arrow(tokens);
    let unit = unit_tokens();
    let error = cg2_tokens(facade, "access", "FieldAccessError");
    push_result_type(tokens, &unit, &error);
    let ghost header = tokens_view(tokens@);
    let mut body = empty_tokens();
    push_downcast_line(&mut body);
    let line = replacement_line(facade, ty, thread_safe);
    append_tokens(&mut body, &line);
    push_match(&mut body, pattern, assign_arm(binding), inactive, false);
    let ghost body_view = tokens_view(body@);
    push_group(tokens, DelimiterIr::Brace, body);
    assert(header =~= start + seq![
        ident_view("fn"@),
        ident_view(name@),
        group_view(DelimiterIr::Parenthesis, set_parameters_view(facade_view, thread_safe)),
        punct_view('-', true),
        punct_view('>', false),
    ] + result_type_view(unit_view(), access_error_view(facade_view)));
    assert(tokens_view(tokens@) =~= start + set_view(
        facade_view,
        name@,
        tokens_view(ty@),
        tokens_view(pattern@),
        binding@,
        tokens_view(inactive@),
        thread_safe,
    ));
}

fn push_preflight(
    tokens: &mut Vec<TokenTreeIr>,
    facade: &Vec<TokenTreeIr>,
    name: &str,
    target_type: &Vec<TokenTreeIr>,
    active: &Vec<TokenTreeIr>,
    inactive: &Vec<TokenTreeIr>,
)
    ensures
        tokens_view(final(tokens)@) == tokens_view(old(tokens)@) + preflight_view(
            tokens_view(facade@),
            name@,
            tokens_view(target_type@),
            tokens_view(active@),
            tokens_view(inactive@),
        ),
{
    let ghost start = tokens_view(tokens@);
    let ghost facade_view = tokens_view(facade@);
    let mut parameters = empty_tokens();
    push_ident(&mut parameters, "target");
    push_punct(&mut parameters, ':', false);
    push_punct(&mut parameters, '&', false);
    append_tokens(&mut parameters, target_type);
    let ghost parameters_view = tokens_view(parameters@);
    push_fn_header_open(tokens, name);
    push_group(tokens, DelimiterIr::Parenthesis, parameters);
    push_arrow(tokens);
    let unit = unit_tokens();
    let error = cg2_tokens(facade, "access", "FieldAccessError");
    push_result_type(tokens, &unit, &error);
    let ghost header = tokens_view(tokens@);
    let mut arm = empty_tokens();
    push_ident(&mut arm, "Ok");
    push_group(&mut arm, DelimiterIr::Parenthesis, unit_tokens());
    let ghost arm_view = tokens_view(arm@);
    let mut body = empty_tokens();
    push_downcast_ref_line(&mut body);
    push_match(&mut body, active, arm, inactive, false);
    push_group(tokens, DelimiterIr::Brace, body);
    proof {
        assert(arm_view =~= seq![ident_view("Ok"@), group_view(DelimiterIr::Parenthesis, unit_view())]);
        assert(parameters_view =~= seq![ident_view("target"@), punct_view(':', false), punct_view('&', false)]
            + tokens_view(target_type@));
        assert(header =~= start + seq![
            ident_view("fn"@),
            ident_view(name@),
            group_view(DelimiterIr::Parenthesis, parameters_view),
            punct_view('-', true),
            punct_view('>', false),
        ] + result_type_view(unit_view(), access_error_view(facade_view)));
    }
    assert(tokens_view(tokens@) =~= start + preflight_view(
        facade_view,
        name@,
        tokens_view(target_type@),
        tokens_view(active@),
        tokens_view(inactive@),
    ));
}

fn adapter_name_of(prefix: &str, variant: usize, field: usize, suffix: &str) -> (name: String)
    ensures
        name@ == adapter_name(prefix@, variant, field, suffix@),
{
    proof {
        reveal_strlit("_field_");
    }
    join5(prefix, decimal_string(variant).as_str(), "_field_", decimal_string(field).as_str(), suffix)
}

fn local_adapters(
    facade: &Vec<TokenTreeIr>,
    v: usize,
    f: usize,
    ty: &Vec<TokenTreeIr>,
    pattern: &Vec<TokenTreeIr>,
    active: &Vec<TokenTreeIr>,
    binding: &str,
    inactive: &Vec<TokenTreeIr>,
) -> (tokens: Vec<TokenTreeIr>)
    ensures
        tokens_view(tokens@) == local_adapters_view(
            tokens_view(facade@),
            v,
            f,
            tokens_view(ty@),
            tokens_view(pattern@),
            tokens_view(active@),
            binding@,
            tokens_view(inactive@),
        ),
{
    let mut tokens = empty_tokens();
    push_get(
        &mut tokens,
        facade,
        adapter_name_of("__qubit_reflect_get_variant_", v, f, "").as_str(),
        "ReflectedRef",
        pattern,
        binding,
        inactive,
        false,
    );
    push_get(
        &mut tokens,
        facade,
        adapter_name_of("__qubit_reflect_get_mut_variant_", v, f, "").as_str(),
        "ReflectedMut",
        pattern,
        binding,
        inactive,
        false,
    );
    push_set(
        &mut tokens,
        facade,
        adapter_name_of("__qubit_reflect_set_variant_", v, f, "").as_str(),
        ty,
        pattern,
        binding,
        inactive,
        false,
    );
    let target = local_type(facade, "ReflectedMut", "_");
    push_preflight(
        &mut tokens,
        facade,
        adapter_name_of("__qubit_reflect_preflight_set_variant_", v, f, "").as_str(),
        &target,
        active,
        inactive,
    );
    tokens
}

fn thread_adapters(
    facade: &Vec<TokenTreeIr>,
    v: usize,
    f: usize,
    ty: &Vec<TokenTreeIr>,
    pattern: &Vec<TokenTreeIr>,
    active: &Vec<TokenTreeIr>,
    binding: &str,
    inactive: &Vec<TokenTreeIr>,
) -> (tokens: Vec<TokenTreeIr>)
    ensures
        tokens_view(tokens@) == thread_adapters_view(
            tokens_view(facade@),
            v,
            f,
            tokens_view(ty@),
            tokens_view(pattern@),
            tokens_view(active@),
            binding@,
            tokens_view(inactive@),
        ),
{
    let mut tokens = empty_tokens();
    push_get(
        &mut tokens,
        facade,
        adapter_name_of("__qubit_reflect_get_variant_", v, f, "_thread_safe").as_str(),
        "DynamicRef",
        pattern,
        binding,
        inactive,
        true,
    );
    push_get(
        &mut tokens,
        facade,
        adapter_name_of("__qubit_reflect_get_mut_variant_", v, f, "_thread_safe").as_str(),
        "DynamicMut",
        pattern,
        binding,
        inactive,
        true,
    );
    push_set(
        &mut tokens,
        facade,
        adapter_name_of("__qubit_reflect_set_variant_", v, f, "_thread_safe").as_str(),
        ty,
        pattern,
        binding,
        inactive,
        true,
    );
    let mut target = thread_type(facade, "DynamicMut", "_");
    push_punct(&mut target, ',', false);
    assert(tokens_view(target@) =~= thread_type_view(tokens_view(facade@), "DynamicMut"@, "_"@) + seq![
        punct_view(',', false),
    ]);
    push_preflight(
        &mut tokens,
        facade,
        adapter_name_of("__qubit_reflect_preflight_set_variant_", v, f, "_thread_safe").as_str(),
        &target,
        active,
        inactive,
    );
    tokens
}

/// Emits the access adapters of one field of a variant.
pub fn field_adapters(
    facade: &Vec<TokenTreeIr>,
    variant: &VariantIr,
    field: &FieldIr,
    thread_safe: bool,
) -> (tokens: Vec<TokenTreeIr>)
    requires
        variant.kind == VariantKindIr::Struct ==> field.name is Some,
    ensures
        tokens_view(tokens@) == field_adapters_view(tokens_view(facade@), *variant, *field, thread_safe),
{
    let pattern = field_pattern(variant, field);
    let active = active_pattern(variant);
    let binding = join2("__qubit_reflect_value_", decimal_string(field.index).as_str());
    let inactive_error = inactive(facade, variant, field);
    let mut tokens = local_adapters(
        facade,
        variant.index,
        field.index,
        &field.ty.tokens,
        &pattern,
        &active,
        binding.as_str(),
        &inactive_error,
    );
    if thread_safe {
        let more = thread_adapters(
            facade,
            variant.index,
            field.index,
            &field.ty.tokens,
            &pattern,
            &active,
            binding.as_str(),
            &inactive_error,
        );
        append_tokens(&mut tokens, &more);
    } else {
        assert(tokens_view(tokens@) + Seq::<TokenView>::empty() =~= tokens_view(tokens@));
    }
    tokens
}

/// Emits the check of whether a variant is the active one.
pub fn active_check(facade: &Vec<TokenTreeIr>, variant: &VariantIr) -> (tokens: Vec<TokenTreeIr>)
    ensures
        tokens_view(tokens@) == active_check_view(tokens_view(facade@), *variant),
{
    let ghost facade_view = tokens_view(facade@);
    let mut tokens = empty_tokens();
    push_ident(&mut tokens, "fn");
    let name = join2("__qubit_reflect_is_variant_", decimal_string(variant.index).as_str());
    push_ident(&mut tokens, name.as_str());
    let mut parameters = empty_tokens();
    push_ident(&mut parameters, "value");
    push_punct(&mut parameters, ':', false);
    let value_type = local_type(facade, "ReflectedRef", "_");
    append_tokens(&mut parameters, &value_type);
    let ghost parameters_view = tokens_view(parameters@);
    push_group(&mut tokens, DelimiterIr::Parenthesis, parameters);
    push_arrow(&mut tokens);
    let mut boolean = empty_tokens();
    push_ident(&mut boolean, "bool");
    let mismatch = cg2_tokens(facade, "error", "TypeMismatch");
    push_result_type(&mut tokens, &boolean, &mismatch);
    let ghost header = tokens_view(tokens@);
    let mut body = empty_tokens();
    push_ident(&mut body, "let");
    push_ident(&mut body, "value");
    push_punct(&mut body, '=', false);
    push_ident(&mut body, "value");
    push_punct(&mut body, '.', false);
    push_ident(&mut body, "downcast");
    push_self_turbofish_call(&mut body);
    push_unwrap_unreachable(&mut body, "\"validated enum target\"");
    push_punct(&mut body, ';', false);
    push_ident(&mut body, "Ok");
    let mut matched = empty_tokens();
    push_ident(&mut matched, "value");
    push_punct(&mut matched, ',', false);
    let pattern = active_pattern(variant);
    append_tokens(&mut matched, &pattern);
    let ghost matched_view = tokens_view(matched@);
    let mut check = empty_tokens();
    push_ident(&mut check, "matches");
    push_punct(&mut check, '!', false);
    push_group(&mut check, DelimiterIr::Parenthesis, matched);
    let ghost check_view = tokens_view(check@);
    push_group(&mut body, DelimiterIr::Parenthesis, check);
    let ghost body_view = tokens_view(body@);
    proof {
        assert(body_view =~= seq![
            ident_view("let"@),
            ident_view("value"@),
            punct_view('=', false),
            ident_view("value"@),
            punct_view('.', false),
            ident_view("downcast"@),
        ] + colons_view() + seq![
            punct_view('<', false),
            ident_view("Self"@),
            punct_view('>', false),
            group_view(DelimiterIr::Parenthesis, Seq::empty()),
        ] + unwrap_unreachable_view("\"validated enum target\""@) + seq![
            punct_view(';', false),
            ident_view("Ok"@),
            group_view(DelimiterIr::Parenthesis, check_view),
        ]);
    }
    push_group(&mut tokens, DelimiterIr::Brace, body);
    proof {
        assert(matched_view =~= seq![ident_view("value"@), punct_view(',', false)] + active_pattern_view(*variant));
        assert(check_view =~= seq![
            ident_view("matches"@),
            punct_view('!', false),
            group_view(DelimiterIr::Parenthesis, matched_view),
        ]);
        assert(parameters_view =~= seq![ident_view("value"@), punct_view(':', false)] + local_type_view(
            facade_view,
            "ReflectedRef"@,
            "_"@,
        ));
        assert(header =~= seq![
            ident_view("fn"@),
            ident_view("__qubit_reflect_is_variant_"@ + decimal(variant.index as nat)),
            group_view(DelimiterIr::Parenthesis, parameters_view),
            punct_view('-', true),
            punct_view('>', false),
        ] + result_type_view(seq![ident_view("bool"@)], cg2_view(facade_view, seq!["error"@, "TypeMismatch"@])));
    }
    assert(tokens_view(tokens@) =~= active_check_view(facade_view, *variant));
    tokens
}

/// Emits the active-variant check and the field-access adapters of one enum
/// variant: one definition for the check, then one for each field of a
/// tuple or struct variant.
pub fn adapters(variant: &VariantIr, facade: &Vec<TokenTreeIr>, thread_safe: bool) -> (definitions: Vec<
    Vec<TokenTreeIr>,
>)
    requires
        variant.kind == VariantKindIr::Struct ==> forall|i: int|
            0 <= i < variant.fields@.len() ==> (#[trigger] variant.fields@[i]).name is Some,
    ensures
        crate::codegen::token_lists_view(definitions@) == variant_adapters_view(
            tokens_view(facade@),
            *variant,
            thread_safe,
        ),
{
    let ghost facade_view = tokens_view(facade@);
    let mut definitions: Vec<Vec<TokenTreeIr>> = Vec::new();
    definitions.push(active_check(facade, variant));
    let ghost first = crate::codegen::token_lists_view(definitions@);
    assert(first =~= seq![active_check_view(facade_view, *variant)]);
    if variant.kind == VariantKindIr::Unit {
        assert(first + Seq::<Seq<TokenView>>::empty() =~= first);
        return definitions;
    }
    let ghost items = variant.fields@.map_values(
        |field: FieldIr| field_adapters_view(facade_view, *variant, field, thread_safe),
    );
    let mut index: usize = 0;
    assert(items.take(0) =~= Seq::<Seq<TokenView>>::empty());
    assert(first + items.take(0) =~= first);
    while index < variant.fields.len()
        invariant
            index <= variant.fields@.len(),
            variant.kind != VariantKindIr::Unit,
            variant.kind == VariantKindIr::Struct ==> forall|i: int|
                0 <= i < variant.fields@.len() ==> (#[trigger] variant.fields@[i]).name is Some,
            facade_view == tokens_view(facade@),
            first == seq![active_check_view(facade_view, *variant)],
            items == variant.fields@.map_values(
                |field: FieldIr| field_adapters_view(facade_view, *variant, field, thread_safe),
            ),
            crate::codegen::token_lists_view(definitions@) == first + items.take(index as int),
        decreases variant.fields.len() - index,
    {
        let definition = field_adapters(facade, variant, &variant.fields[index], thread_safe);
        let ghost before = definitions@;
        definitions.push(definition);
        proof {
            assert(crate::codegen::token_lists_view(definitions@) =~= crate::codegen::token_lists_view(before).push(
                tokens_view(definition@),
            ));
            assert(items.take(index + 1) =~= items.take(index as int).push(items[index as int]));
            assert(first + items.take(index + 1) =~= (first + items.take(index as int)).push(items[index as int]));
        }
        index += 1;
    }
    assert(items.take(index as int) =~= items);
    definitions
}

} // verus!
