//! Column definitions for customs spreadsheets and their database mapping.

use vstd::prelude::*;
use crate::text::str_eq;

verus! {

/// One known schema column: the source header and the database name.
pub struct ColumnDef {
    /// Source spreadsheet header as it appears in customs data.
    pub header: &'static str,
    /// Database column name.
    pub name: &'static str,
}

/// Number of known schema columns.
pub const COLUMN_COUNT: usize = 41;

/// Index of the date column among the schema columns.
pub const DATE_COL: usize = 4;

/// Number of headers required for the standard layout.
pub const REQUIRED_HEADER_COUNT: usize = 7;

/// Number of columns in the full-text search index.
pub const SEARCH_COLUMN_COUNT: usize = 9;

/// Number of result-table columns: every schema column plus the source file.
pub const RESULT_COLUMN_COUNT: usize = 42;

/// Number of glossary entries.
pub const GLOSSARY_COUNT: usize = 42;

/// Database column name of schema column `i` (see `COLUMN_COUNT`).
pub open spec fn column_name(i: int) -> Seq<char> {
    if i == 0 {
        "clearance_time"@
    } else if i == 1 {
        "customs_office"@
    } else if i == 2 {
        "declaration_type"@
    } else if i == 3 {
        "declaration_number"@
    } else if i == 4 {
        "declaration_date"@
    } else if i == 5 {
        "sender"@
    } else if i == 6 {
        "edrpou"@
    } else if i == 7 {
        "recipient"@
    } else if i == 8 {
        "item_number"@
    } else if i == 9 {
        "product_code"@
    } else if i == 10 {
        "description"@
    } else if i == 11 {
        "trade_country"@
    } else if i == 12 {
        "dispatch_country"@
    } else if i == 13 {
        "origin_country"@
    } else if i == 14 {
        "delivery_terms"@
    } else if i == 15 {
        "delivery_place"@
    } else if i == 16 {
        "quantity"@
    } else if i == 17 {
        "unit"@
    } else if i == 18 {
        "gross_kg"@
    } else if i == 19 {
        "net_kg"@
    } else if i == 20 {
        "declaration_weight"@
    } else if i == 21 {
        "currency_control_value"@
    } else if i == 22 {
        "movement_feature"@
    } else if i == 23 {
        "field_43"@
    } else if i == 24 {
        "field_43_01"@
    } else if i == 25 {
        "rfv_usd_kg"@
    } else if i == 26 {
        "unit_weight"@
    } else if i == 27 {
        "weight_difference"@
    } else if i == 28 {
        "contract"@
    } else if i == 29 {
        "field_3001"@
    } else if i == 30 {
        "field_3002"@
    } else if i == 31 {
        "field_9610"@
    } else if i == 32 {
        "trademark"@
    } else if i == 33 {
        "rmv_net_usd_kg"@
    } else if i == 34 {
        "rmv_usd_extra_unit"@
    } else if i == 35 {
        "rmv_gross_usd_kg"@
    } else if i == 36 {
        "zed_purpose"@
    } else if i == 37 {
        "min_base_usd_kg"@
    } else if i == 38 {
        "min_base_difference"@
    } else if i == 39 {
        "preferential"@
    } else if i == 40 {
        "full_rate"@
    } else {
        Seq::empty()
    }
}

/// Source-file header of schema column `i`.
pub open spec fn column_header(i: int) -> Seq<char> {
    if i == 0 {
        "Час оформлення"@
    } else if i == 1 {
        "Назва ПМО"@
    } else if i == 2 {
        "Тип"@
    } else if i == 3 {
        "Номер МД"@
    } else if i == 4 {
        "Дата"@
    } else if i == 5 {
        "Відправник"@
    } else if i == 6 {
        "ЕДРПОУ"@
    } else if i == 7 {
        "Одержувач"@
    } else if i == 8 {
        "№"@
    } else if i == 9 {
        "Код товару"@
    } else if i == 10 {
        "Опис товару"@
    } else if i == 11 {
        "Кр.торг."@
    } else if i == 12 {
        "Кр.відпр."@
    } else if i == 13 {
        "Кр.пох."@
    } else if i == 14 {
        "Умови пост."@
    } else if i == 15 {
        "Місце пост"@
    } else if i == 16 {
        "К-ть"@
    } else if i == 17 {
        "Один.вим."@
    } else if i == 18 {
        "Брутто, кг."@
    } else if i == 19 {
        "Нетто, кг."@
    } else if i == 20 {
        "Вага по МД"@
    } else if i == 21 {
        "ФВ вал.контр"@
    } else if i == 22 {
        "Особ.перем."@
    } else if i == 23 {
        "43"@
    } else if i == 24 {
        "43_01"@
    } else if i == 25 {
        "РФВ Дол/кг."@
    } else if i == 26 {
        "Вага.один."@
    } else if i == 27 {
        "Вага різн."@
    } else if i == 28 {
        "Контракт"@
    } else if i == 29 {
        "3001"@
    } else if i == 30 {
        "3002"@
    } else if i == 31 {
        "9610"@
    } else if i == 32 {
        "Торг.марк."@
    } else if i == 33 {
        "РМВ Нетто Дол/кг."@
    } else if i == 34 {
        "РМВ Дол/дод.од."@
    } else if i == 35 {
        "РМВ Брутто Дол/кг"@
    } else if i == 36 {
        "Призн.Зед"@
    } else if i == 37 {
        "Мін.База Дол/кг."@
    } else if i == 38 {
        "Різн.мін.база"@
    } else if i == 39 {
        "пільгова"@
    } else if i == 40 {
        "повна"@
    } else {
        Seq::empty()
    }
}

/// Headers without which a file is not imported as the standard layout.
pub open spec fn required_header(i: int) -> Seq<char> {
    if i == 0 {
        "Номер МД"@
    } else if i == 1 {
        "Дата"@
    } else if i == 2 {
        "Відправник"@
    } else if i == 3 {
        "ЕДРПОУ"@
    } else if i == 4 {
        "Одержувач"@
    } else if i == 5 {
        "Код товару"@
    } else if i == 6 {
        "Опис товару"@
    } else {
        Seq::empty()
    }
}

/// Columns included in the full-text search index.
pub open spec fn search_column(i: int) -> Seq<char> {
    if i == 0 {
        "description"@
    } else if i == 1 {
        "sender"@
    } else if i == 2 {
        "recipient"@
    } else if i == 3 {
        "trademark"@
    } else if i == 4 {
        "declaration_number"@
    } else if i == 5 {
        "product_code"@
    } else if i == 6 {
        "trade_country"@
    } else if i == 7 {
        "dispatch_country"@
    } else if i == 8 {
        "origin_country"@
    } else {
        Seq::empty()
    }
}

/// Keys of the column glossary.
pub open spec fn glossary_key(i: int) -> Seq<char> {
    if i == 0 {
        "clearance_time"@
    } else if i == 1 {
        "customs_office"@
    } else if i == 2 {
        "declaration_type"@
    } else if i == 3 {
        "declaration_number"@
    } else if i == 4 {
        "declaration_date"@
    } else if i == 5 {
        "sender"@
    } else if i == 6 {
        "edrpou"@
    } else if i == 7 {
        "recipient"@
    } else if i == 8 {
        "item_number"@
    } else if i == 9 {
        "product_code"@
    } else if i == 10 {
        "description"@
    } else if i == 11 {
        "trade_country"@
    } else if i == 12 {
        "dispatch_country"@
    } else if i == 13 {
        "origin_country"@
    } else if i == 14 {
        "delivery_terms"@
    } else if i == 15 {
        "delivery_place"@
    } else if i == 16 {
        "quantity"@
    } else if i == 17 {
        "unit"@
    } else if i == 18 {
        "gross_kg"@
    } else if i == 19 {
        "net_kg"@
    } else if i == 20 {
        "declaration_weight"@
    } else if i == 21 {
        "movement_feature"@
    } else if i == 22 {
        "field_43"@
    } else if i == 23 {
        "field_43_01"@
    } else if i == 24 {
        "unit_weight"@
    } else if i == 25 {
        "weight_difference"@
    } else if i == 26 {
        "contract"@
    } else if i == 27 {
        "field_3001"@
    } else if i == 28 {
        "field_3002"@
    } else if i == 29 {
        "field_9610"@
    } else if i == 30 {
        "trademark"@
    } else if i == 31 {
        "zed_purpose"@
    } else if i == 32 {
        "min_base_difference"@
    } else if i == 33 {
        "preferential"@
    } else if i == 34 {
        "full_rate"@
    } else if i == 35 {
        "source_file"@
    } else if i == 36 {
        "currency_control_value"@
    } else if i == 37 {
        "rfv_usd_kg"@
    } else if i == 38 {
        "rmv_net_usd_kg"@
    } else if i == 39 {
        "rmv_usd_extra_unit"@
    } else if i == 40 {
        "rmv_gross_usd_kg"@
    } else if i == 41 {
        "min_base_usd_kg"@
    } else {
        Seq::empty()
    }
}

/// Texts of the column glossary.
pub open spec fn glossary_text(i: int) -> Seq<char> {
    if i == 0 {
        "Час оформлення — час реєстрації або завершення митного оформлення."@
    } else if i == 1 {
        "Назва ПМО — підрозділ митного оформлення / митний пост."@
    } else if i == 2 {
        "Тип — тип митної декларації або митного режиму."@
    } else if i == 3 {
        "Номер МД — номер митної декларації."@
    } else if i == 4 {
        "Дата — дата оформлення митної декларації."@
    } else if i == 5 {
        "Відправник — компанія або особа, що відправила товар."@
    } else if i == 6 {
        "ЄДРПОУ — код української компанії-одержувача або учасника операції."@
    } else if i == 7 {
        "Одержувач — компанія або особа, що отримувала товар."@
    } else if i == 8 {
        "№ — номер товарної позиції всередині декларації."@
    } else if i == 9 {
        "Код товару — код УКТЗЕД / HS для класифікації товару."@
    } else if i == 10 {
        "Опис товару — текстовий опис товарної позиції з джерела."@
    } else if i == 11 {
        "Кр.торг. — країна торгівлі або країна контракту."@
    } else if i == 12 {
        "Кр.відпр. — країна, з якої товар був відправлений."@
    } else if i == 13 {
        "Кр.пох. — країна походження товару."@
    } else if i == 14 {
        "Умови пост. — умови поставки, зазвичай Incoterms."@
    } else if i == 15 {
        "Місце пост — місце поставки за умовами контракту."@
    } else if i == 16 {
        "К-ть — кількість товару у вказаній одиниці виміру."@
    } else if i == 17 {
        "Один.вим. — одиниця виміру кількості товару."@
    } else if i == 18 {
        "Брутто, кг. — вага товару з упаковкою."@
    } else if i == 19 {
        "Нетто, кг. — вага товару без упаковки."@
    } else if i == 20 {
        "Вага по МД — вага, зазначена або розрахована по митній декларації."@
    } else if i == 21 {
        "Особ.перем. — особливість переміщення товару, якщо вона є в джерелі."@
    } else if i == 22 {
        "43 — графа 43 митної декларації; метод визначення митної вартості."@
    } else if i == 23 {
        "43_01 — додаткове або уточнювальне значення для графи 43."@
    } else if i == 24 {
        "Вага.один. — вага однієї одиниці товару."@
    } else if i == 25 {
        "Вага різн. — різниця ваги або контрольне відхилення ваги."@
    } else if i == 26 {
        "Контракт — номер, дата або ознака зовнішньоекономічного контракту."@
    } else if i == 27 {
        "3001 — мито, грн., якщо це поле є в початковому митному реєстрі."@
    } else if i == 28 {
        "3002 — акциз, грн., якщо це поле є в початковому митному реєстрі."@
    } else if i == 29 {
        "9610 — ПДВ, грн., якщо це поле є в початковому митному реєстрі."@
    } else if i == 30 {
        "Торг.марк. — торгова марка або бренд товару."@
    } else if i == 31 {
        "Призн.Зед — ознака або призначення зовнішньоекономічної операції."@
    } else if i == 32 {
        "Різн.мін.база — різниця відносно мінімальної розрахункової бази."@
    } else if i == 33 {
        "пільгова — пільгова ставка або сума мита, якщо є в джерелі."@
    } else if i == 34 {
        "повна — повна ставка або сума мита, якщо є в джерелі."@
    } else if i == 35 {
        "Файл — Excel-файл, з якого була імпортована ця строка."@
    } else if i == 36 {
        "ФВ вал.контр — фактурна вартість у валюті контракту"@
    } else if i == 37 {
        "РФВ — розрахункова фактурна вартість (ФРВ), дол/кг"@
    } else if i == 38 {
        "РМВ нетто — розрахункова митна вартість за нетто, дол/кг"@
    } else if i == 39 {
        "РМВ — розрахункова митна вартість, дол за дод. одиницю"@
    } else if i == 40 {
        "РМВ брутто — розрахункова митна вартість за брутто, дол/кг"@
    } else if i == 41 {
        "Мін.База — мінімальна розрахункова вартість (РВ), дол/кг"@
    } else {
        Seq::empty()
    }
}

pub fn column_name_at(i: usize) -> (r: &'static str)
    requires
        i < 41,
    ensures
        r@ == column_name(i as int),
{
    match i {
        0 => "clearance_time",
        1 => "customs_office",
        2 => "declaration_type",
        3 => "declaration_number",
        4 => "declaration_date",
        5 => "sender",
        6 => "edrpou",
        7 => "recipient",
        8 => "item_number",
        9 => "product_code",
        10 => "description",
        11 => "trade_country",
        12 => "dispatch_country",
        13 => "origin_country",
        14 => "delivery_terms",
        15 => "delivery_place",
        16 => "quantity",
        17 => "unit",
        18 => "gross_kg",
        19 => "net_kg",
        20 => "declaration_weight",
        21 => "currency_control_value",
        22 => "movement_feature",
        23 => "field_43",
        24 => "field_43_01",
        25 => "rfv_usd_kg",
        26 => "unit_weight",
        27 => "weight_difference",
        28 => "contract",
        29 => "field_3001",
        30 => "field_3002",
        31 => "field_9610",
        32 => "trademark",
        33 => "rmv_net_usd_kg",
        34 => "rmv_usd_extra_unit",
        35 => "rmv_gross_usd_kg",
        36 => "zed_purpose",
        37 => "min_base_usd_kg",
        38 => "min_base_difference",
        39 => "preferential",
        _ => "full_rate",
    }
}

pub fn column_header_at(i: usize) -> (r: &'static str)
    requires
        i < 41,
    ensures
        r@ == column_header(i as int),
{
    match i {
        0 => "Час оформлення",
        1 => "Назва ПМО",
        2 => "Тип",
        3 => "Номер МД",
        4 => "Дата",
        5 => "Відправник",
        6 => "ЕДРПОУ",
        7 => "Одержувач",
        8 => "№",
        9 => "Код товару",
        10 => "Опис товару",
        11 => "Кр.торг.",
        12 => "Кр.відпр.",
        13 => "Кр.пох.",
        14 => "Умови пост.",
        15 => "Місце пост",
        16 => "К-ть",
        17 => "Один.вим.",
        18 => "Брутто, кг.",
        19 => "Нетто, кг.",
        20 => "Вага по МД",
        21 => "ФВ вал.контр",
        22 => "Особ.перем.",
        23 => "43",
        24 => "43_01",
        25 => "РФВ Дол/кг.",
        26 => "Вага.один.",
        27 => "Вага різн.",
        28 => "Контракт",
        29 => "3001",
        30 => "3002",
        31 => "9610",
        32 => "Торг.марк.",
        33 => "РМВ Нетто Дол/кг.",
        34 => "РМВ Дол/дод.од.",
        35 => "РМВ Брутто Дол/кг",
        36 => "Призн.Зед",
        37 => "Мін.База Дол/кг.",
        38 => "Різн.мін.база",
        39 => "пільгова",
        _ => "повна",
    }
}

pub fn required_header_at(i: usize) -> (r: &'static str)
    requires
        i < 7,
    ensures
        r@ == required_header(i as int),
{
    match i {
        0 => "Номер МД",
        1 => "Дата",
        2 => "Відправник",
        3 => "ЕДРПОУ",
        4 => "Одержувач",
        5 => "Код товару",
        _ => "Опис товару",
    }
}

pub fn search_column_at(i: usize) -> (r: &'static str)
    requires
        i < 9,
    ensures
        r@ == search_column(i as int),
{
    match i {
        0 => "description",
        1 => "sender",
        2 => "recipient",
        3 => "trademark",
        4 => "declaration_number",
        5 => "product_code",
        6 => "trade_country",
        7 => "dispatch_country",
        _ => "origin_country",
    }
}

fn glossary_key_at(i: usize) -> (r: &'static str)
    requires
        i < 42,
    ensures
        r@ == glossary_key(i as int),
{
    match i {
        0 => "clearance_time",
        1 => "customs_office",
        2 => "declaration_type",
        3 => "declaration_number",
        4 => "declaration_date",
        5 => "sender",
        6 => "edrpou",
        7 => "recipient",
        8 => "item_number",
        9 => "product_code",
        10 => "description",
        11 => "trade_country",
        12 => "dispatch_country",
        13 => "origin_country",
        14 => "delivery_terms",
        15 => "delivery_place",
        16 => "quantity",
        17 => "unit",
        18 => "gross_kg",
        19 => "net_kg",
        20 => "declaration_weight",
        21 => "movement_feature",
        22 => "field_43",
        23 => "field_43_01",
        24 => "unit_weight",
        25 => "weight_difference",
        26 => "contract",
        27 => "field_3001",
        28 => "field_3002",
        29 => "field_9610",
        30 => "trademark",
        31 => "zed_purpose",
        32 => "min_base_difference",
        33 => "preferential",
        34 => "full_rate",
        35 => "source_file",
        36 => "currency_control_value",
        37 => "rfv_usd_kg",
        38 => "rmv_net_usd_kg",
        39 => "rmv_usd_extra_unit",
        40 => "rmv_gross_usd_kg",
        _ => "min_base_usd_kg",
    }
}

fn glossary_text_at(i: usize) -> (r: &'static str)
    requires
        i < 42,
    ensures
        r@ == glossary_text(i as int),
{
    match i {
        0 => "Час оформлення — час реєстрації або завершення митного оформлення.",
        1 => "Назва ПМО — підрозділ митного оформлення / митний пост.",
        2 => "Тип — тип митної декларації або митного режиму.",
        3 => "Номер МД — номер митної декларації.",
        4 => "Дата — дата оформлення митної декларації.",
        5 => "Відправник — компанія або особа, що відправила товар.",
        6 => "ЄДРПОУ — код української компанії-одержувача або учасника операції.",
        7 => "Одержувач — компанія або особа, що отримувала товар.",
        8 => "№ — номер товарної позиції всередині декларації.",
        9 => "Код товару — код УКТЗЕД / HS для класифікації товару.",
        10 => "Опис товару — текстовий опис товарної позиції з джерела.",
        11 => "Кр.торг. — країна торгівлі або країна контракту.",
        12 => "Кр.відпр. — країна, з якої товар був відправлений.",
        13 => "Кр.пох. — країна походження товару.",
        14 => "Умови пост. — умови поставки, зазвичай Incoterms.",
        15 => "Місце пост — місце поставки за умовами контракту.",
        16 => "К-ть — кількість товару у вказаній одиниці виміру.",
        17 => "Один.вим. — одиниця виміру кількості товару.",
        18 => "Брутто, кг. — вага товару з упаковкою.",
        19 => "Нетто, кг. — вага товару без упаковки.",
        20 => "Вага по МД — вага, зазначена або розрахована по митній декларації.",
        21 => "Особ.перем. — особливість переміщення товару, якщо вона є в джерелі.",
        22 => "43 — графа 43 митної декларації; метод визначення митної вартості.",
        23 => "43_01 — додаткове або уточнювальне значення для графи 43.",
        24 => "Вага.один. — вага однієї одиниці товару.",
        25 => "Вага різн. — різниця ваги або контрольне відхилення ваги.",
        26 => "Контракт — номер, дата або ознака зовнішньоекономічного контракту.",
        27 => "3001 — мито, грн., якщо це поле є в початковому митному реєстрі.",
        28 => "3002 — акциз, грн., якщо це поле є в початковому митному реєстрі.",
        29 => "9610 — ПДВ, грн., якщо це поле є в початковому митному реєстрі.",
        30 => "Торг.марк. — торгова марка або бренд товару.",
        31 => "Призн.Зед — ознака або призначення зовнішньоекономічної операції.",
        32 => "Різн.мін.база — різниця відносно мінімальної розрахункової бази.",
        33 => "пільгова — пільгова ставка або сума мита, якщо є в джерелі.",
        34 => "повна — повна ставка або сума мита, якщо є в джерелі.",
        35 => "Файл — Excel-файл, з якого була імпортована ця строка.",
        36 => "ФВ вал.контр — фактурна вартість у валюті контракту",
        37 => "РФВ — розрахункова фактурна вартість (ФРВ), дол/кг",
        38 => "РМВ нетто — розрахункова митна вартість за нетто, дол/кг",
        39 => "РМВ — розрахункова митна вартість, дол за дод. одиницю",
        40 => "РМВ брутто — розрахункова митна вартість за брутто, дол/кг",
        _ => "Мін.База — мінімальна розрахункова вартість (РВ), дол/кг",
    }
}

/// Result-table column `i`: the schema columns followed by `source_file`.
pub open spec fn result_column(i: int) -> Seq<char> {
    if i < 41 {
        column_name(i)
    } else {
        "source_file"@
    }
}

/// Schema column `i`.
pub fn column_def(i: usize) -> (r: ColumnDef)
    requires
        i < COLUMN_COUNT,
    ensures
        r.name@ == column_name(i as int),
        r.header@ == column_header(i as int),
{
    ColumnDef { header: column_header_at(i), name: column_name_at(i) }
}

/// Result-table column name `i`.
pub fn result_column_at(i: usize) -> (r: &'static str)
    requires
        i < RESULT_COLUMN_COUNT,
    ensures
        r@ == result_column(i as int),
{
    if i < COLUMN_COUNT {
        column_name_at(i)
    } else {
        "source_file"
    }
}

/// Position of the schema column with database name `name`.
pub fn col_index(name: &str) -> (r: Option<usize>)
    ensures
        match r {
            Some(i) => col_index_spec(name@) == Some(i as int),
            None => col_index_spec(name@) is None,
        },
{
    proof {
        lemma_first_col(name@, 0);
    }
    let mut i: usize = 0;
    while i < COLUMN_COUNT
        invariant
            i <= COLUMN_COUNT,
            forall|j: int| 0 <= j < i ==> column_name(j) != name@,
        decreases COLUMN_COUNT - i,
    {
        if str_eq(column_name_at(i), name) {
            proof {
                lemma_first_col_is(name@, 0, i as int);
            }
            return Some(i);
        }
        i += 1;
    }
    None
}

/// The glossary entry of a column name, searching from entry `i` on.
pub open spec fn glossary_from(name: Seq<char>, i: int) -> Option<Seq<char>>
    decreases GLOSSARY_COUNT - i,
{
    if i < 0 || i >= GLOSSARY_COUNT {
        None
    } else if glossary_key(i) == name {
        Some(glossary_text(i))
    } else {
        glossary_from(name, i + 1)
    }
}

/// The glossary entry of a column name: the text of its first entry.
pub open spec fn glossary_of(name: Seq<char>) -> Option<Seq<char>> {
    glossary_from(name, 0)
}

/// Expanded meaning of an abbreviated source column, shown as a hover hint.
pub fn column_glossary(name: &str) -> (r: Option<&'static str>)
    ensures
        match r {
            Some(t) => glossary_of(name@) == Some(t@),
            None => glossary_of(name@) is None,
        },
{
    let mut i: usize = 0;
    while i < GLOSSARY_COUNT
        invariant
            i <= GLOSSARY_COUNT,
            glossary_of(name@) == glossary_from(name@, i as int),
        decreases GLOSSARY_COUNT - i,
    {
        if str_eq(glossary_key_at(i), name) {
            return Some(glossary_text_at(i));
        }
        i += 1;
    }
    None
}

/// Header shown for a database column name: `source_file` is "Файл", a
/// schema column its source header, anything else the empty text.
pub open spec fn header_label(name: Seq<char>) -> Seq<char> {
    if name == "source_file"@ {
        "Файл"@
    } else {
        match col_index_spec(name) {
            Some(i) => column_header(i),
            None => Seq::empty(),
        }
    }
}

/// Source-file header for a database column name; `source_file` maps to
/// "Файл", an unknown name to the empty text.
pub fn header_for(name: &str) -> (r: &'static str)
    ensures
        r@ == header_label(name@),
{
    if str_eq(name, "source_file") {
        return "Файл";
    }
    match col_index(name) {
        Some(i) => {
            proof {
                lemma_first_col(name@, 0);
            }
            column_header_at(i)
        },
        None => {
            proof {
                lemma_first_col(name@, 0);
                reveal_strlit("");
            }
            assert(""@ =~= Seq::<char>::empty());
            ""
        },
    }
}

/// The first schema column at or after `from` named `name`, if any.
pub open spec fn first_col_from(name: Seq<char>, from: int) -> Option<int>
    decreases 41 - from,
{
    if from >= 41 || from < 0 {
        None
    } else if column_name(from) == name {
        Some(from)
    } else {
        first_col_from(name, from + 1)
    }
}

/// The first schema column named `name`, if any.
pub open spec fn col_index_spec(name: Seq<char>) -> Option<int> {
    first_col_from(name, 0)
}

proof fn lemma_first_col_is(name: Seq<char>, from: int, i: int)
    requires
        0 <= from <= i < 41,
        column_name(i) == name,
        forall|j: int| from <= j < i ==> column_name(j) != name,
    ensures
        first_col_from(name, from) == Some(i),
    decreases i - from,
{
    if from < i {
        lemma_first_col_is(name, from + 1, i);
    }
}

proof fn lemma_first_col(name: Seq<char>, from: int)
    requires
        0 <= from <= 41,
    ensures
        match first_col_from(name, from) {
            Some(i) => from <= i < 41 && column_name(i) == name && forall|j: int|
                from <= j < i ==> column_name(j) != name,
            None => forall|j: int| from <= j < 41 ==> column_name(j) != name,
        },
    decreases 41 - from,
{
    if from < 41 && column_name(from) != name {
        lemma_first_col(name, from + 1);
    }
}

} // verus!
