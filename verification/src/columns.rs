//! Result columns: their groups in the column menu, their visual kind,
//! and the presets that pick a working set of them.

use vstd::prelude::*;
use crate::text::{has_infix, str_lowercase, lowercase, str_contains, str_eq};
use crate::schema::{column_glossary, glossary_of};
use crate::search::{FieldInfo, FieldInfoModel, FieldRef, FieldRefModel, FieldKind};
use crate::header_map::strs_view;
use crate::search::fields_model;
use crate::text::views;

verus! {

/// Visual cell type.
#[derive(Clone, Copy, Debug, PartialEq, Eq, Structural)]
pub enum CellKind {
    /// Primary text, such as descriptions and companies.
    Normal,
    /// Secondary text, such as dates, countries, and organization codes.
    Weak,
    /// Product code: monospace and accented.
    Code,
    /// Numbers: monospace and right-aligned.
    Number,
}

#[derive(Clone, Copy, Debug, PartialEq, Eq, Structural)]
pub enum ColumnPreset {
    Basic,
    Companies,
    Goods,
    Prices,
    Logistics,
}

fn name_in(name: &str, names: &[&str]) -> (r: bool)
    ensures
        r == strs_view(names@).contains(name@),
{
    let mut i: usize = 0;
    while i < names.len()
        invariant
            i <= names@.len(),
            forall|k: int| 0 <= k < i ==> strs_view(names@)[k] != name@,
        decreases names.len() - i,
    {
        if str_eq(names[i], name) {
            assert(strs_view(names@)[i as int] == name@);
            return true;
        }
        i += 1;
    }
    false
}

/// Columns of the basic preset.
pub open spec fn basic_preset_names() -> Seq<Seq<char>> {
    seq!["declaration_date"@, "declaration_number"@, "sender"@, "recipient"@, "edrpou"@, "product_code"@, "description"@, "currency_control_value"@, "net_kg"@, "trademark"@, "origin_country"@, "source_file"@]
}

/// Columns of the companies preset.
pub open spec fn companies_preset_names() -> Seq<Seq<char>> {
    seq!["declaration_date"@, "declaration_number"@, "sender"@, "recipient"@, "edrpou"@, "trade_country"@, "dispatch_country"@, "origin_country"@, "source_file"@]
}

/// Columns of the goods preset.
pub open spec fn goods_preset_names() -> Seq<Seq<char>> {
    seq!["declaration_date"@, "product_code"@, "description"@, "trademark"@, "item_number"@, "quantity"@, "unit"@, "net_kg"@, "gross_kg"@, "source_file"@]
}

/// Columns of the prices preset.
pub open spec fn prices_preset_names() -> Seq<Seq<char>> {
    seq!["declaration_date"@, "recipient"@, "edrpou"@, "product_code"@, "currency_control_value"@, "net_kg"@, "gross_kg"@, "rfv_usd_kg"@, "rmv_net_usd_kg"@, "rmv_usd_extra_unit"@, "rmv_gross_usd_kg"@, "min_base_usd_kg"@, "min_base_difference"@, "field_3001"@, "field_3002"@, "field_9610"@]
}

/// Columns of the logistics preset.
pub open spec fn logistics_preset_names() -> Seq<Seq<char>> {
    seq!["declaration_date"@, "declaration_number"@, "sender"@, "recipient"@, "trade_country"@, "dispatch_country"@, "origin_country"@, "delivery_terms"@, "delivery_place"@, "gross_kg"@, "net_kg"@, "declaration_weight"@, "source_file"@]
}

pub open spec fn group_names_0() -> Seq<Seq<char>> {
    seq!["declaration_number"@, "declaration_date"@, "declaration_type"@, "clearance_time"@, "customs_office"@, "source_file"@]
}

pub open spec fn group_names_1() -> Seq<Seq<char>> {
    seq!["sender"@, "recipient"@, "edrpou"@]
}

pub open spec fn group_names_2() -> Seq<Seq<char>> {
    seq!["product_code"@, "description"@, "trademark"@, "item_number"@, "quantity"@, "unit"@]
}

pub open spec fn group_names_3() -> Seq<Seq<char>> {
    seq!["gross_kg"@, "net_kg"@, "declaration_weight"@, "unit_weight"@, "weight_difference"@]
}

pub open spec fn group_names_4() -> Seq<Seq<char>> {
    seq!["currency_control_value"@, "rfv_usd_kg"@, "rmv_net_usd_kg"@, "rmv_usd_extra_unit"@, "rmv_gross_usd_kg"@, "min_base_usd_kg"@, "min_base_difference"@, "preferential"@, "full_rate"@, "field_3001"@, "field_3002"@, "field_9610"@]
}

pub open spec fn group_names_5() -> Seq<Seq<char>> {
    seq!["trade_country"@, "dispatch_country"@, "origin_country"@, "delivery_terms"@, "delivery_place"@]
}

pub open spec fn kind_names_0() -> Seq<Seq<char>> {
    seq!["clearance_time"@, "customs_office"@, "declaration_type"@, "declaration_date"@, "declaration_number"@, "edrpou"@, "trade_country"@, "dispatch_country"@, "origin_country"@, "delivery_terms"@, "delivery_place"@, "unit"@, "contract"@, "trademark"@, "source_file"@]
}

pub open spec fn kind_names_1() -> Seq<Seq<char>> {
    seq!["sender"@, "recipient"@, "description"@]
}

pub open spec fn kind_names_2() -> Seq<Seq<char>> {
    seq!["item_number"@, "quantity"@, "gross_kg"@, "net_kg"@, "declaration_weight"@, "currency_control_value"@, "rfv_usd_kg"@, "unit_weight"@, "weight_difference"@, "rmv_net_usd_kg"@, "rmv_usd_extra_unit"@, "rmv_gross_usd_kg"@, "min_base_usd_kg"@, "min_base_difference"@, "preferential"@, "full_rate"@]
}

pub open spec fn kind_names_3() -> Seq<Seq<char>> {
    seq!["product_code"@]
}

/// The group of a schema column in the column menu.
pub open spec fn group_of_column(name: Seq<char>) -> Seq<char> {
    if group_names_0().contains(name) {
        "Documents"@
    } else if group_names_1().contains(name) {
        "Companies"@
    } else if group_names_2().contains(name) {
        "Goods"@
    } else if group_names_3().contains(name) {
        "Weights"@
    } else if group_names_4().contains(name) {
        "Prices and payments"@
    } else if group_names_5().contains(name) {
        "Countries and delivery"@
    } else {
        "Profile details"@
    }
}

/// The visual kind of a schema column.
pub open spec fn kind_of_column(name: Seq<char>) -> CellKind {
    if kind_names_0().contains(name) {
        CellKind::Weak
    } else if kind_names_1().contains(name) {
        CellKind::Normal
    } else if kind_names_2().contains(name) {
        CellKind::Number
    } else if kind_names_3().contains(name) {
        CellKind::Code
    } else {
        CellKind::Normal
    }
}

fn group_for_column(name: &str) -> (r: &'static str)
    ensures
        r@ == group_of_column(name@),
{
    let names = ["declaration_number", "declaration_date", "declaration_type", "clearance_time", "customs_office", "source_file"];
    assert(strs_view(names@) =~= group_names_0());
    if name_in(name, &names) {
        return "Documents";
    }
    let names = ["sender", "recipient", "edrpou"];
    assert(strs_view(names@) =~= group_names_1());
    if name_in(name, &names) {
        return "Companies";
    }
    let names = ["product_code", "description", "trademark", "item_number", "quantity", "unit"];
    assert(strs_view(names@) =~= group_names_2());
    if name_in(name, &names) {
        return "Goods";
    }
    let names = ["gross_kg", "net_kg", "declaration_weight", "unit_weight", "weight_difference"];
    assert(strs_view(names@) =~= group_names_3());
    if name_in(name, &names) {
        return "Weights";
    }
    let names = ["currency_control_value", "rfv_usd_kg", "rmv_net_usd_kg", "rmv_usd_extra_unit", "rmv_gross_usd_kg", "min_base_usd_kg", "min_base_difference", "preferential", "full_rate", "field_3001", "field_3002", "field_9610"];
    assert(strs_view(names@) =~= group_names_4());
    if name_in(name, &names) {
        return "Prices and payments";
    }
    let names = ["trade_country", "dispatch_country", "origin_country", "delivery_terms", "delivery_place"];
    assert(strs_view(names@) =~= group_names_5());
    if name_in(name, &names) {
        return "Countries and delivery";
    }
    "Profile details"
}

fn kind_for_column(name: &str) -> (r: CellKind)
    ensures
        r == kind_of_column(name@),
{
    let names = ["clearance_time", "customs_office", "declaration_type", "declaration_date", "declaration_number", "edrpou", "trade_country", "dispatch_country", "origin_country", "delivery_terms", "delivery_place", "unit", "contract", "trademark", "source_file"];
    assert(strs_view(names@) =~= kind_names_0());
    if name_in(name, &names) {
        return CellKind::Weak;
    }
    let names = ["sender", "recipient", "description"];
    assert(strs_view(names@) =~= kind_names_1());
    if name_in(name, &names) {
        return CellKind::Normal;
    }
    let names = ["item_number", "quantity", "gross_kg", "net_kg", "declaration_weight", "currency_control_value", "rfv_usd_kg", "unit_weight", "weight_difference", "rmv_net_usd_kg", "rmv_usd_extra_unit", "rmv_gross_usd_kg", "min_base_usd_kg", "min_base_difference", "preferential", "full_rate"];
    assert(strs_view(names@) =~= kind_names_2());
    if name_in(name, &names) {
        return CellKind::Number;
    }
    let names = ["product_code"];
    assert(strs_view(names@) =~= kind_names_3());
    if name_in(name, &names) {
        return CellKind::Code;
    }
    CellKind::Normal
}

fn name_in_preset(name: &str, preset: ColumnPreset) -> (r: bool)
    ensures
        r == preset_names(preset).contains(name@),
{
    match preset {
        ColumnPreset::Basic => {
            let names = ["declaration_date", "declaration_number", "sender", "recipient", "edrpou", "product_code", "description", "currency_control_value", "net_kg", "trademark", "origin_country", "source_file"];
            assert(strs_view(names@) =~= basic_preset_names());
            name_in(name, &names)
        },
        ColumnPreset::Companies => {
            let names = ["declaration_date", "declaration_number", "sender", "recipient", "edrpou", "trade_country", "dispatch_country", "origin_country", "source_file"];
            assert(strs_view(names@) =~= companies_preset_names());
            name_in(name, &names)
        },
        ColumnPreset::Goods => {
            let names = ["declaration_date", "product_code", "description", "trademark", "item_number", "quantity", "unit", "net_kg", "gross_kg", "source_file"];
            assert(strs_view(names@) =~= goods_preset_names());
            name_in(name, &names)
        },
        ColumnPreset::Prices => {
            let names = ["declaration_date", "recipient", "edrpou", "product_code", "currency_control_value", "net_kg", "gross_kg", "rfv_usd_kg", "rmv_net_usd_kg", "rmv_usd_extra_unit", "rmv_gross_usd_kg", "min_base_usd_kg", "min_base_difference", "field_3001", "field_3002", "field_9610"];
            assert(strs_view(names@) =~= prices_preset_names());
            name_in(name, &names)
        },
        ColumnPreset::Logistics => {
            let names = ["declaration_date", "declaration_number", "sender", "recipient", "trade_country", "dispatch_country", "origin_country", "delivery_terms", "delivery_place", "gross_kg", "net_kg", "declaration_weight", "source_file"];
            assert(strs_view(names@) =~= logistics_preset_names());
            name_in(name, &names)
        },
    }
}

/// The columns a preset shows.
pub open spec fn preset_names(preset: ColumnPreset) -> Seq<Seq<char>> {
    match preset {
        ColumnPreset::Basic => basic_preset_names(),
        ColumnPreset::Companies => companies_preset_names(),
        ColumnPreset::Goods => goods_preset_names(),
        ColumnPreset::Prices => prices_preset_names(),
        ColumnPreset::Logistics => logistics_preset_names(),
    }
}

/// The group of a field in the column menu: source columns, or the group
/// of its schema column.
pub open spec fn group_of(f: FieldInfoModel) -> Seq<char> {
    match f.source {
        FieldRefModel::Extra(_) => "Source columns"@,
        FieldRefModel::Column(name) => group_of_column(name),
    }
}

/// The group of a field in the column menu.
pub fn column_group(field: &FieldInfo) -> (r: &'static str)
    ensures
        r@ == group_of(field@),
{
    match &field.source {
        FieldRef::Extra(_) => "Source columns",
        FieldRef::Column(name) => group_for_column(name.as_str()),
    }
}

/// The visual kind of a field: by its schema column, or by its kind for a
/// source column.
pub open spec fn cell_kind_of(f: FieldInfoModel) -> CellKind {
    match f.source {
        FieldRefModel::Column(name) => kind_of_column(name),
        FieldRefModel::Extra(_) => match f.kind {
            FieldKind::Number => CellKind::Number,
            FieldKind::Code => CellKind::Code,
            FieldKind::Date | FieldKind::Country | FieldKind::Year => CellKind::Weak,
            FieldKind::Text => CellKind::Normal,
        },
    }
}

/// The visual kind of a field's cells.
pub fn field_cell_kind(field: &FieldInfo) -> (r: CellKind)
    ensures
        r == cell_kind_of(field@),
{
    match &field.source {
        FieldRef::Column(name) => kind_for_column(name.as_str()),
        FieldRef::Extra(_) => match field.kind {
            FieldKind::Number => CellKind::Number,
            FieldKind::Code => CellKind::Code,
            FieldKind::Date | FieldKind::Country | FieldKind::Year => CellKind::Weak,
            FieldKind::Text => CellKind::Normal,
        },
    }
}

/// The glossary hint of a field: that of its schema column.
pub open spec fn glossary_for(f: FieldInfoModel) -> Option<Seq<char>> {
    match f.source {
        FieldRefModel::Column(name) => glossary_of(name),
        FieldRefModel::Extra(_) => None,
    }
}

/// The glossary hint of a field, if it has one.
pub fn field_glossary(field: &FieldInfo) -> (r: Option<&'static str>)
    ensures
        match r {
            Some(t) => glossary_for(field@) == Some(t@),
            None => glossary_for(field@) is None,
        },
{
    match &field.source {
        FieldRef::Column(name) => column_glossary(name.as_str()),
        FieldRef::Extra(_) => None,
    }
}

/// The schema column of a field, if it is one.
pub fn field_column_name(field: &FieldInfo) -> (r: Option<&str>)
    ensures
        match field@.source {
            FieldRefModel::Column(name) => r matches Some(n) && n@ == name,
            FieldRefModel::Extra(_) => r is None,
        },
{
    match &field.source {
        FieldRef::Column(name) => Some(name.as_str()),
        FieldRef::Extra(_) => None,
    }
}

/// Whether the column menu's search text finds a field: in its label,
/// identifier, group or glossary hint, compared in lowercase.
pub open spec fn field_matches(f: FieldInfoModel, needle: Seq<char>) -> bool {
    needle.len() == 0 || has_infix(str_lowercase(f.label), needle) || has_infix(
        str_lowercase(f.id),
        needle,
    ) || has_infix(str_lowercase(group_of(f)), needle) || has_infix(
        str_lowercase(
            match glossary_for(f) {
                Some(g) => g,
                None => Seq::empty(),
            },
        ),
        needle,
    )
}

/// Whether the column menu's search text finds a field.
pub fn field_matches_filter(field: &FieldInfo, needle: &str) -> (r: bool)
    ensures
        r == field_matches(field@, needle@),
{
    if needle.is_empty() {
        return true;
    }
    let label = lowercase(field.label.as_str());
    let id = lowercase(field.id.as_str());
    let group = lowercase(column_group(field));
    let glossary = match field_glossary(field) {
        Some(g) => lowercase(g),
        None => lowercase(""),
    };
    proof {
        if glossary_for(field@) is None {
            assert(""@ =~= Seq::<char>::empty()) by {
                reveal_strlit("");
            }
        }
    }
    str_contains(label.as_str(), needle) || str_contains(id.as_str(), needle) || str_contains(
        group.as_str(),
        needle,
    ) || str_contains(glossary.as_str(), needle)
}

/// Whether a preset shows a field: its listed schema columns; the basic
/// preset also shows every source column.
pub open spec fn in_preset(f: FieldInfoModel, preset: ColumnPreset) -> bool {
    match f.source {
        FieldRefModel::Column(name) => preset_names(preset).contains(name),
        FieldRefModel::Extra(_) => preset == ColumnPreset::Basic,
    }
}

/// Whether a preset shows a field.
pub fn column_in_preset(field: &FieldInfo, preset: ColumnPreset) -> (r: bool)
    ensures
        r == in_preset(field@, preset),
{
    match field_column_name(field) {
        None => preset == ColumnPreset::Basic,
        Some(name) => name_in_preset(name, preset),
    }
}

// ---------- visible columns ----------

/// Shows every column, or hides every column but the first.
pub fn set_all_columns(visible_cols: &mut Vec<bool>, visible: bool)
    ensures
        final(visible_cols)@.len() == old(visible_cols)@.len(),
        forall|i: int|
            0 <= i < final(visible_cols)@.len() ==> #[trigger] final(visible_cols)@[i] == (visible
                || i == 0),
{
    let mut i: usize = 0;
    while i < visible_cols.len()
        invariant
            i <= visible_cols@.len(),
            visible_cols@.len() == old(visible_cols)@.len(),
            forall|k: int| 0 <= k < i ==> #[trigger] visible_cols@[k] == visible,
        decreases visible_cols.len() - i,
    {
        visible_cols.set(i, visible);
        i += 1;
    }
    if !visible && visible_cols.len() > 0 {
        visible_cols.set(0, true);
    }
}

/// Whether some column is visible.
pub open spec fn any_visible(v: Seq<bool>) -> bool {
    exists|i: int| 0 <= i < v.len() && v[i]
}

/// Shows the columns of a preset. Columns past the known fields keep their
/// state; when nothing would be visible, the first column is shown.
pub fn apply_column_preset(
    result_fields: &[FieldInfo],
    visible_cols: &mut Vec<bool>,
    preset: ColumnPreset,
)
    ensures
        final(visible_cols)@.len() == old(visible_cols)@.len(),
        ({
            let set = Seq::new(
                old(visible_cols)@.len(),
                |i: int|
                    if i < result_fields@.len() {
                        in_preset(result_fields@[i]@, preset)
                    } else {
                        old(visible_cols)@[i]
                    },
            );
            final(visible_cols)@ == if !any_visible(set) && set.len() > 0 {
                set.update(0, true)
            } else {
                set
            }
        }),
        old(visible_cols)@.len() > 0 ==> any_visible(final(visible_cols)@),
{
    let ghost old_cols = visible_cols@;
    let n = visible_cols.len();
    let mut i: usize = 0;
    while i < n && i < result_fields.len()
        invariant
            n == visible_cols@.len(),
            n == old_cols.len(),
            i <= n,
            i <= result_fields@.len(),
            forall|k: int|
                0 <= k < n ==> #[trigger] visible_cols@[k] == if k < i {
                    in_preset(result_fields@[k]@, preset)
                } else {
                    old_cols[k]
                },
        decreases n - i,
    {
        let shown = column_in_preset(&result_fields[i], preset);
        visible_cols.set(i, shown);
        i += 1;
    }
    let ghost set = Seq::new(
        old_cols.len(),
        |k: int|
            if k < result_fields@.len() {
                in_preset(result_fields@[k]@, preset)
            } else {
                old_cols[k]
            },
    );
    assert(visible_cols@ =~= set);
    let mut any = false;
    let mut j: usize = 0;
    while j < n
        invariant
            n == visible_cols@.len(),
            visible_cols@ == set,
            j <= n,
            any == exists|k: int| 0 <= k < j && set[k],
        decreases n - j,
    {
        if visible_cols[j] {
            any = true;
        }
        j += 1;
    }
    if !any && n > 0 {
        visible_cols.set(0, true);
        assert(visible_cols@[0]);
    }
}

/// The identifiers of the fields whose column is hidden (fields and flags
/// paired in order, as far as both go).
pub open spec fn hidden_ids_spec(fields: Seq<FieldInfoModel>, visible: Seq<bool>) -> Seq<Seq<char>>
    decreases fields.len(),
{
    if fields.len() == 0 || visible.len() == 0 {
        Seq::empty()
    } else {
        let n = if fields.len() < visible.len() {
            fields.len()
        } else {
            visible.len()
        };
        let rest = hidden_ids_spec(fields.take(n - 1), visible.take(n - 1));
        if visible[n - 1] {
            rest
        } else {
            rest.push(fields[n - 1].id)
        }
    }
}

/// The identifiers of the hidden result columns.
pub fn hidden_result_ids(fields: &[FieldInfo], visible: &[bool]) -> (r: Vec<String>)
    ensures
        views(r@) == hidden_ids_spec(fields_model(fields@), visible@),
{
    let ghost fm = fields_model(fields@);
    let mut out: Vec<String> = Vec::new();
    let mut i: usize = 0;
    while i < fields.len() && i < visible.len()
        invariant
            i <= fields@.len(),
            i <= visible@.len(),
            fm == fields_model(fields@),
            views(out@) == hidden_ids_spec(fm.take(i as int), visible@.take(i as int)),
        decreases fields.len() - i,
    {
        let ghost before = views(out@);
        proof {
            let f2 = fm.take(i + 1);
            let v2 = visible@.take(i + 1);
            assert(f2.take(i as int) =~= fm.take(i as int));
            assert(v2.take(i as int) =~= visible@.take(i as int));
            assert(f2[i as int] == fields@[i as int]@);
        }
        if !visible[i] {
            out.push(fields[i].id.clone());
            assert(views(out@) =~= before.push(fields@[i as int]@.id));
        }
        i += 1;
    }
    proof {
        if i == fields.len() {
            assert(fm.take(i as int) =~= fm);
        }
        if i == visible.len() {
            assert(visible@.take(i as int) =~= visible@);
        }
        lemma_hidden_ids_prefix(fm, visible@, i as int);
    }
    out
}

proof fn lemma_hidden_ids_prefix(f: Seq<FieldInfoModel>, v: Seq<bool>, n: int)
    requires
        0 <= n <= f.len(),
        n <= v.len(),
        n == f.len() || n == v.len(),
    ensures
        hidden_ids_spec(f.take(n), v.take(n)) == hidden_ids_spec(f, v),
{
    if n == 0 {
        assert(f.len() == 0 || v.len() == 0);
    } else {
        let m = if f.len() < v.len() {
            f.len()
        } else {
            v.len()
        };
        assert(m == n);
        assert(f.take(n).take(n - 1) =~= f.take(n - 1));
        assert(v.take(n).take(n - 1) =~= v.take(n - 1));
    }
}

/// The visibility of new result fields: hidden exactly when their
/// identifier is among the hidden ones.
pub fn visibility_for(fields: &[FieldInfo], hidden: &Vec<String>) -> (r: Vec<bool>)
    ensures
        r@.len() == fields@.len(),
        forall|i: int|
            0 <= i < fields@.len() ==> #[trigger] r@[i] == !views(hidden@).contains(
                fields@[i].id@,
            ),
{
    let mut out: Vec<bool> = Vec::new();
    let mut i: usize = 0;
    while i < fields.len()
        invariant
            i <= fields@.len(),
            out@.len() == i,
            forall|k: int|
                0 <= k < i ==> #[trigger] out@[k] == !views(hidden@).contains(fields@[k].id@),
        decreases fields.len() - i,
    {
        let mut found = false;
        let mut j: usize = 0;
        while j < hidden.len()
            invariant
                j <= hidden@.len(),
                i < fields@.len(),
                found == exists|k: int| 0 <= k < j && views(hidden@)[k] == fields@[i as int].id@,
            decreases hidden.len() - j,
        {
            assert(views(hidden@)[j as int] == hidden@[j as int]@);
            if str_eq(hidden[j].as_str(), fields[i].id.as_str()) {
                found = true;
            }
            j += 1;
        }
        out.push(!found);
        i += 1;
    }
    out
}

} // verus!
