//! Interface texts that exist in Ukrainian and in English (every other
//! language shows the English text).

use vstd::prelude::*;
use crate::guided::Lang;
use crate::header_map::strs_view;

verus! {

// ---------- comparison view ----------

pub fn analytics_compare_label(lang: Lang) -> (r: &'static str)
    ensures
        r@ == match lang {
            Lang::Ua => "Порівняння"@,
            _ => "Compare"@,
        },
{
    match lang {
        Lang::Ua => "Порівняння",
        _ => "Compare",
    }
}

pub fn compare_hint(lang: Lang) -> (r: &'static str)
    ensures
        r@ == match lang {
            Lang::Ua => "Порівняйте поточний запит з іншим товаром, компанією або роком. Фільтри зліва зберігаються, якщо не змінити текст чи рік."@,
            _ => "Compare the current query with another product, company, or year. Current filters are reused unless you override text or year."@,
        },
{
    match lang {
        Lang::Ua => "Порівняйте поточний запит з іншим товаром, компанією або роком. Фільтри зліва зберігаються, якщо не змінити текст чи рік.",
        _ => "Compare the current query with another product, company, or year. Current filters are reused unless you override text or year.",
    }
}

pub fn compare_text_label(lang: Lang) -> (r: &'static str)
    ensures
        r@ == match lang {
            Lang::Ua => "Порівняти з:"@,
            _ => "Compare with:"@,
        },
{
    match lang {
        Lang::Ua => "Порівняти з:",
        _ => "Compare with:",
    }
}

pub fn compare_previous_year_label(lang: Lang) -> (r: &'static str)
    ensures
        r@ == match lang {
            Lang::Ua => "Попередній рік"@,
            _ => "Previous year"@,
        },
{
    match lang {
        Lang::Ua => "Попередній рік",
        _ => "Previous year",
    }
}

pub fn compare_run_label(lang: Lang) -> (r: &'static str)
    ensures
        r@ == match lang {
            Lang::Ua => "Порівняти"@,
            _ => "Compare"@,
        },
{
    match lang {
        Lang::Ua => "Порівняти",
        _ => "Compare",
    }
}

pub fn compare_empty(lang: Lang) -> (r: &'static str)
    ensures
        r@ == match lang {
            Lang::Ua => "Вкажіть текст або рік для порівняння і натисніть «Порівняти»."@,
            _ => "Enter a text or year to compare with, then click Compare."@,
        },
{
    match lang {
        Lang::Ua => "Вкажіть текст або рік для порівняння і натисніть «Порівняти».",
        _ => "Enter a text or year to compare with, then click Compare.",
    }
}

pub fn compare_delta_title(lang: Lang) -> (r: &'static str)
    ensures
        r@ == match lang {
            Lang::Ua => "Різниця"@,
            _ => "Difference"@,
        },
{
    match lang {
        Lang::Ua => "Різниця",
        _ => "Difference",
    }
}

// ---------- overview ----------

pub fn overview_scale_title(lang: Lang) -> (r: &'static str)
    ensures
        r@ == match lang {
            Lang::Ua => "Масштаб запиту"@,
            _ => "Query scale"@,
        },
{
    match lang {
        Lang::Ua => "Масштаб запиту",
        _ => "Query scale",
    }
}

pub fn overview_scale_help(lang: Lang) -> (r: &'static str)
    ensures
        r@ == match lang {
            Lang::Ua => "Головна відповідь про обсяг: сума, вага та середня вартість за кг для поточного запиту."@,
            _ => "Headline scale: value, weight, and average value per kg for the current query."@,
        },
{
    match lang {
        Lang::Ua => "Головна відповідь про обсяг: сума, вага та середня вартість за кг для поточного запиту.",
        _ => "Headline scale: value, weight, and average value per kg for the current query.",
    }
}

pub fn overview_documents_title(lang: Lang) -> (r: &'static str)
    ensures
        r@ == match lang {
            Lang::Ua => "Документи"@,
            _ => "Documents"@,
        },
{
    match lang {
        Lang::Ua => "Документи",
        _ => "Documents",
    }
}

pub fn overview_documents_help(lang: Lang) -> (r: &'static str)
    ensures
        r@ == match lang {
            Lang::Ua => "Пояснює базу розрахунку: скільки декларацій і товарних рядків потрапили в аналітику."@,
            _ => "Shows the calculation base: recognized documents and rows included in analytics."@,
        },
{
    match lang {
        Lang::Ua => "Пояснює базу розрахунку: скільки декларацій і товарних рядків потрапили в аналітику.",
        _ => "Shows the calculation base: recognized documents and rows included in analytics.",
    }
}

pub fn overview_participants_title(lang: Lang) -> (r: &'static str)
    ensures
        r@ == match lang {
            Lang::Ua => "Учасники"@,
            _ => "Participants"@,
        },
{
    match lang {
        Lang::Ua => "Учасники",
        _ => "Participants",
    }
}

pub fn overview_participants_help(lang: Lang) -> (r: &'static str)
    ensures
        r@ == match lang {
            Lang::Ua => "Скільки різних компаній, одержувачів і відправників знайдено у поточному запиті."@,
            _ => "How many recognized companies and company roles appear in the current query."@,
        },
{
    match lang {
        Lang::Ua => "Скільки різних компаній, одержувачів і відправників знайдено у поточному запиті.",
        _ => "How many recognized companies and company roles appear in the current query.",
    }
}

pub fn overview_goods_title(lang: Lang) -> (r: &'static str)
    ensures
        r@ == match lang {
            Lang::Ua => "Товари і географія"@,
            _ => "Goods and geography"@,
        },
{
    match lang {
        Lang::Ua => "Товари і географія",
        _ => "Goods and geography",
    }
}

pub fn overview_goods_help(lang: Lang) -> (r: &'static str)
    ensures
        r@ == match lang {
            Lang::Ua => "Ширина товарної групи: коди товару, торгові марки та країни, які зустрічаються у запиті."@,
            _ => "Breadth of the product set: product/SKU codes, brands, and countries present in the query."@,
        },
{
    match lang {
        Lang::Ua => "Ширина товарної групи: коди товару, торгові марки та країни, які зустрічаються у запиті.",
        _ => "Breadth of the product set: product/SKU codes, brands, and countries present in the query.",
    }
}

pub fn overview_per_declaration_label(lang: Lang) -> (r: &'static str)
    ensures
        r@ == match lang {
            Lang::Ua => "На декларацію"@,
            _ => "Per document"@,
        },
{
    match lang {
        Lang::Ua => "На декларацію",
        _ => "Per document",
    }
}

pub fn overview_senders_help(lang: Lang) -> (r: &'static str)
    ensures
        r@ == match lang {
            Lang::Ua => "Унікальні відправники у знайдених рядках."@,
            _ => "Unique recognized source companies in the matched rows."@,
        },
{
    match lang {
        Lang::Ua => "Унікальні відправники у знайдених рядках.",
        _ => "Unique recognized source companies in the matched rows.",
    }
}

pub fn overview_edrpou_help(lang: Lang) -> (r: &'static str)
    ensures
        r@ == match lang {
            Lang::Ua => "Унікальні коди ЄДРПОУ у знайдених рядках."@,
            _ => "Unique recognized company identifiers in the matched rows."@,
        },
{
    match lang {
        Lang::Ua => "Унікальні коди ЄДРПОУ у знайдених рядках.",
        _ => "Unique recognized company identifiers in the matched rows.",
    }
}

pub fn overview_gross_help(lang: Lang) -> (r: &'static str)
    ensures
        r@ == match lang {
            Lang::Ua => "Сумарна вага брутто у знайдених рядках."@,
            _ => "Total gross weight across the matched rows."@,
        },
{
    match lang {
        Lang::Ua => "Сумарна вага брутто у знайдених рядках.",
        _ => "Total gross weight across the matched rows.",
    }
}

pub fn overview_quantity_help(lang: Lang) -> (r: &'static str)
    ensures
        r@ == match lang {
            Lang::Ua => "Сума поля кількості там, де воно заповнене числом."@,
            _ => "Sum of the quantity field where it can be parsed as a number."@,
        },
{
    match lang {
        Lang::Ua => "Сума поля кількості там, де воно заповнене числом.",
        _ => "Sum of the quantity field where it can be parsed as a number.",
    }
}

pub fn overview_trademarks_help(lang: Lang) -> (r: &'static str)
    ensures
        r@ == match lang {
            Lang::Ua => "Кількість різних торгових марок у знайдених рядках."@,
            _ => "Number of distinct trademarks in the matched rows."@,
        },
{
    match lang {
        Lang::Ua => "Кількість різних торгових марок у знайдених рядках.",
        _ => "Number of distinct trademarks in the matched rows.",
    }
}

pub fn overview_origin_countries_label(lang: Lang) -> (r: &'static str)
    ensures
        r@ == match lang {
            Lang::Ua => "Країни походження"@,
            _ => "Origin countries"@,
        },
{
    match lang {
        Lang::Ua => "Країни походження",
        _ => "Origin countries",
    }
}

pub fn overview_dispatch_countries_label(lang: Lang) -> (r: &'static str)
    ensures
        r@ == match lang {
            Lang::Ua => "Країни відправлення"@,
            _ => "Dispatch countries"@,
        },
{
    match lang {
        Lang::Ua => "Країни відправлення",
        _ => "Dispatch countries",
    }
}

pub fn overview_dispatch_countries_help(lang: Lang) -> (r: &'static str)
    ensures
        r@ == match lang {
            Lang::Ua => "Кількість різних країн відправлення у знайдених рядках."@,
            _ => "Number of distinct dispatch countries in the matched rows."@,
        },
{
    match lang {
        Lang::Ua => "Кількість різних країн відправлення у знайдених рядках.",
        _ => "Number of distinct dispatch countries in the matched rows.",
    }
}

pub fn overview_trade_countries_label(lang: Lang) -> (r: &'static str)
    ensures
        r@ == match lang {
            Lang::Ua => "Країни торгівлі"@,
            _ => "Trade countries"@,
        },
{
    match lang {
        Lang::Ua => "Країни торгівлі",
        _ => "Trade countries",
    }
}

pub fn overview_trade_countries_help(lang: Lang) -> (r: &'static str)
    ensures
        r@ == match lang {
            Lang::Ua => "Кількість різних країн торгівлі у знайдених рядках."@,
            _ => "Number of distinct trade countries in the matched rows."@,
        },
{
    match lang {
        Lang::Ua => "Кількість різних країн торгівлі у знайдених рядках.",
        _ => "Number of distinct trade countries in the matched rows.",
    }
}

// ---------- company profile ----------

pub fn profile_highlight_product(lang: Lang) -> (r: &'static str)
    ensures
        r@ == match lang {
            Lang::Ua => "Головний товар"@,
            _ => "Main good"@,
        },
{
    match lang {
        Lang::Ua => "Головний товар",
        _ => "Main good",
    }
}

pub fn profile_highlight_sender(lang: Lang) -> (r: &'static str)
    ensures
        r@ == match lang {
            Lang::Ua => "Головний відправник"@,
            _ => "Main sender"@,
        },
{
    match lang {
        Lang::Ua => "Головний відправник",
        _ => "Main sender",
    }
}

pub fn profile_highlight_country(lang: Lang) -> (r: &'static str)
    ensures
        r@ == match lang {
            Lang::Ua => "Головна країна"@,
            _ => "Main country"@,
        },
{
    match lang {
        Lang::Ua => "Головна країна",
        _ => "Main country",
    }
}

// ---------- report ----------

pub fn analytics_report_label(lang: Lang) -> (r: &'static str)
    ensures
        r@ == match lang {
            Lang::Ua => "Звіт"@,
            _ => "Report"@,
        },
{
    match lang {
        Lang::Ua => "Звіт",
        _ => "Report",
    }
}

pub fn report_title(lang: Lang) -> (r: &'static str)
    ensures
        r@ == match lang {
            Lang::Ua => "Звіт по поточному запиту"@,
            _ => "Report for the current query"@,
        },
{
    match lang {
        Lang::Ua => "Звіт по поточному запиту",
        _ => "Report for the current query",
    }
}

pub fn report_hint(lang: Lang) -> (r: &'static str)
    ensures
        r@ == match lang {
            Lang::Ua => "Короткий підсумок для роботи: головні цифри, компанії, товари, країни і ціни. HTML-звіт можна зберегти як PDF через друк у браузері."@,
            _ => "A clean working summary: headline numbers, companies, goods, countries, and prices. The HTML report can be saved as PDF from the browser print dialog."@,
        },
{
    match lang {
        Lang::Ua => "Короткий підсумок для роботи: головні цифри, компанії, товари, країни і ціни. HTML-звіт можна зберегти як PDF через друк у браузері.",
        _ => "A clean working summary: headline numbers, companies, goods, countries, and prices. The HTML report can be saved as PDF from the browser print dialog.",
    }
}

pub fn report_copy_label(lang: Lang) -> (r: &'static str)
    ensures
        r@ == match lang {
            Lang::Ua => "Копіювати звіт"@,
            _ => "Copy report"@,
        },
{
    match lang {
        Lang::Ua => "Копіювати звіт",
        _ => "Copy report",
    }
}

pub fn report_export_label(lang: Lang) -> (r: &'static str)
    ensures
        r@ == match lang {
            Lang::Ua => "Експорт HTML/PDF"@,
            _ => "Export HTML/PDF"@,
        },
{
    match lang {
        Lang::Ua => "Експорт HTML/PDF",
        _ => "Export HTML/PDF",
    }
}

// ---------- search menus and analytics notes ----------

pub fn recent_queries_label(lang: Lang) -> (r: &'static str)
    ensures
        r@ == match lang {
            Lang::Ua => "Недавні запити"@,
            _ => "Recent searches"@,
        },
{
    match lang {
        Lang::Ua => "Недавні запити",
        _ => "Recent searches",
    }
}

pub fn saved_queries_label(lang: Lang) -> (r: &'static str)
    ensures
        r@ == match lang {
            Lang::Ua => "Збережені запити"@,
            _ => "Saved searches"@,
        },
{
    match lang {
        Lang::Ua => "Збережені запити",
        _ => "Saved searches",
    }
}

pub fn save_current_query_label(lang: Lang) -> (r: &'static str)
    ensures
        r@ == match lang {
            Lang::Ua => "Зберегти поточний запит"@,
            _ => "Save current search"@,
        },
{
    match lang {
        Lang::Ua => "Зберегти поточний запит",
        _ => "Save current search",
    }
}

pub fn empty_recent_queries_label(lang: Lang) -> (r: &'static str)
    ensures
        r@ == match lang {
            Lang::Ua => "Недавніх запитів ще немає"@,
            _ => "No recent searches yet"@,
        },
{
    match lang {
        Lang::Ua => "Недавніх запитів ще немає",
        _ => "No recent searches yet",
    }
}

pub fn empty_saved_queries_label(lang: Lang) -> (r: &'static str)
    ensures
        r@ == match lang {
            Lang::Ua => "Збережених запитів ще немає"@,
            _ => "No saved searches yet"@,
        },
{
    match lang {
        Lang::Ua => "Збережених запитів ще немає",
        _ => "No saved searches yet",
    }
}

pub fn clear_recent_queries_label(lang: Lang) -> (r: &'static str)
    ensures
        r@ == match lang {
            Lang::Ua => "Очистити історію"@,
            _ => "Clear history"@,
        },
{
    match lang {
        Lang::Ua => "Очистити історію",
        _ => "Clear history",
    }
}

pub fn analytics_calc_title(lang: Lang) -> (r: &'static str)
    ensures
        r@ == match lang {
            Lang::Ua => "Як рахуються цифри"@,
            _ => "How the numbers are calculated"@,
        },
{
    match lang {
        Lang::Ua => "Як рахуються цифри",
        _ => "How the numbers are calculated",
    }
}

pub fn analytics_calc_short_note(lang: Lang) -> (r: &'static str)
    ensures
        r@ == match lang {
            Lang::Ua => "Усі цифри рахуються за поточним запитом і фільтрами."@,
            _ => "All numbers are calculated from the current search and filters."@,
        },
{
    match lang {
        Lang::Ua => "Усі цифри рахуються за поточним запитом і фільтрами.",
        _ => "All numbers are calculated from the current search and filters.",
    }
}

pub fn price_average_help(lang: Lang) -> (r: &'static str)
    ensures
        r@ == match lang {
            Lang::Ua => "Звичайне середнє за рядками з числовим значенням."@,
            _ => "Simple average across rows with a numeric value."@,
        },
{
    match lang {
        Lang::Ua => "Звичайне середнє за рядками з числовим значенням.",
        _ => "Simple average across rows with a numeric value.",
    }
}

pub fn price_weighted_help(lang: Lang) -> (r: &'static str)
    ensures
        r@ == match lang {
            Lang::Ua => "Середнє, зважене за нетто кг: SUM(ціна * нетто) / SUM(нетто)."@,
            _ => "Net-kg weighted average: SUM(price * net kg) / SUM(net kg)."@,
        },
{
    match lang {
        Lang::Ua => "Середнє, зважене за нетто кг: SUM(ціна * нетто) / SUM(нетто).",
        _ => "Net-kg weighted average: SUM(price * net kg) / SUM(net kg).",
    }
}

pub fn price_median_help(lang: Lang) -> (r: &'static str)
    ensures
        r@ == match lang {
            Lang::Ua => "Медіана: половина значень нижче, половина вище."@,
            _ => "Median: half the values are lower and half are higher."@,
        },
{
    match lang {
        Lang::Ua => "Медіана: половина значень нижче, половина вище.",
        _ => "Median: half the values are lower and half are higher.",
    }
}

pub fn price_range_help(lang: Lang) -> (r: &'static str)
    ensures
        r@ == match lang {
            Lang::Ua => "P25-P75: середній діапазон без крайніх 25% знизу і зверху."@,
            _ => "P25-P75: middle range after excluding the lowest and highest quarters."@,
        },
{
    match lang {
        Lang::Ua => "P25-P75: середній діапазон без крайніх 25% знизу і зверху.",
        _ => "P25-P75: middle range after excluding the lowest and highest quarters.",
    }
}

pub fn price_count_help(lang: Lang) -> (r: &'static str)
    ensures
        r@ == match lang {
            Lang::Ua => "Кількість рядків, де цей показник можна прочитати як число."@,
            _ => "Rows where this metric can be parsed as a number."@,
        },
{
    match lang {
        Lang::Ua => "Кількість рядків, де цей показник можна прочитати як число.",
        _ => "Rows where this metric can be parsed as a number.",
    }
}

// ---------- underpricing table ----------

pub fn underpricing_checked_rows_label(lang: Lang) -> (r: &'static str)
    ensures
        r@ == match lang {
            Lang::Ua => "Перевірено рядків"@,
            _ => "Checked rows"@,
        },
{
    match lang {
        Lang::Ua => "Перевірено рядків",
        _ => "Checked rows",
    }
}

pub fn underpricing_checked_rows_help(lang: Lang) -> (r: &'static str)
    ensures
        r@ == match lang {
            Lang::Ua => "Рядки з ціною та нетто у кодах, де достатньо прикладів для порівняння."@,
            _ => "Rows with value and net weight in product codes with enough samples to compare."@,
        },
{
    match lang {
        Lang::Ua => "Рядки з ціною та нетто у кодах, де достатньо прикладів для порівняння.",
        _ => "Rows with value and net weight in product codes with enough samples to compare.",
    }
}

pub fn underpricing_checked_codes_label(lang: Lang) -> (r: &'static str)
    ensures
        r@ == match lang {
            Lang::Ua => "Перевірено кодів"@,
            _ => "Checked codes"@,
        },
{
    match lang {
        Lang::Ua => "Перевірено кодів",
        _ => "Checked codes",
    }
}

pub fn underpricing_checked_codes_help(lang: Lang) -> (r: &'static str)
    ensures
        r@ == match lang {
            Lang::Ua => "Коди товару, де є мінімальна вибірка для медіани."@,
            _ => "Product codes that have the minimum sample size for a median."@,
        },
{
    match lang {
        Lang::Ua => "Коди товару, де є мінімальна вибірка для медіани.",
        _ => "Product codes that have the minimum sample size for a median.",
    }
}

pub fn underpricing_flagged_rows_label(lang: Lang) -> (r: &'static str)
    ensures
        r@ == match lang {
            Lang::Ua => "Підозрілих рядків"@,
            _ => "Suspicious rows"@,
        },
{
    match lang {
        Lang::Ua => "Підозрілих рядків",
        _ => "Suspicious rows",
    }
}

pub fn underpricing_flagged_rows_help(lang: Lang) -> (r: &'static str)
    ensures
        r@ == match lang {
            Lang::Ua => "Рядки, де ціна за кг нижча за встановлений поріг від медіани коду."@,
            _ => "Rows where price per kg is below the selected share of the code median."@,
        },
{
    match lang {
        Lang::Ua => "Рядки, де ціна за кг нижча за встановлений поріг від медіани коду.",
        _ => "Rows where price per kg is below the selected share of the code median.",
    }
}

pub fn underpricing_flagged_value_label(lang: Lang) -> (r: &'static str)
    ensures
        r@ == match lang {
            Lang::Ua => "Сума підозрілих"@,
            _ => "Suspicious value"@,
        },
{
    match lang {
        Lang::Ua => "Сума підозрілих",
        _ => "Suspicious value",
    }
}

pub fn underpricing_flagged_value_help(lang: Lang) -> (r: &'static str)
    ensures
        r@ == match lang {
            Lang::Ua => "ФВ вал.контр у рядках, які потрапили в список підозрілих."@,
            _ => "Declared value of rows that were flagged as suspicious."@,
        },
{
    match lang {
        Lang::Ua => "ФВ вал.контр у рядках, які потрапили в список підозрілих.",
        _ => "Declared value of rows that were flagged as suspicious.",
    }
}

pub fn underpricing_estimated_gap_label(lang: Lang) -> (r: &'static str)
    ensures
        r@ == match lang {
            Lang::Ua => "Оціночний розрив"@,
            _ => "Estimated gap"@,
        },
{
    match lang {
        Lang::Ua => "Оціночний розрив",
        _ => "Estimated gap",
    }
}

pub fn underpricing_estimated_gap_help(lang: Lang) -> (r: &'static str)
    ensures
        r@ == match lang {
            Lang::Ua => "Скільки б становила різниця, якби рядки рахувалися за медіанною ціною свого коду."@,
            _ => "Difference versus valuing flagged rows at their product-code median price."@,
        },
{
    match lang {
        Lang::Ua => "Скільки б становила різниця, якби рядки рахувалися за медіанною ціною свого коду.",
        _ => "Difference versus valuing flagged rows at their product-code median price.",
    }
}

pub fn underpricing_gap_header(lang: Lang) -> (r: &'static str)
    ensures
        r@ == match lang {
            Lang::Ua => "Розрив"@,
            _ => "Gap"@,
        },
{
    match lang {
        Lang::Ua => "Розрив",
        _ => "Gap",
    }
}

pub fn underpricing_samples_header(lang: Lang) -> (r: &'static str)
    ensures
        r@ == match lang {
            Lang::Ua => "Вибірка"@,
            _ => "Samples"@,
        },
{
    match lang {
        Lang::Ua => "Вибірка",
        _ => "Samples",
    }
}

/// The lines of the note on how analytics numbers are calculated.
pub open spec fn calc_lines_text(lang: Lang) -> Seq<Seq<char>> {
    match lang {
        Lang::Ua => seq![
            "Рядки = знайдені товарні рядки, не унікальні декларації."@,
            "Декларації = унікальні номери МД у поточній вибірці."@,
            "Сума = сума поля «ФВ вал.контр», якщо воно заповнене у джерелі."@,
            "$/кг = сума / нетто; якщо нетто порожнє або нульове, показник не рахується."@,
            "У групах частка рахується від суми; якщо суми немає, використовується нетто, потім кількість рядків."@,
            "Аналітика рахує унікальні рядки: дублікати, позначені як повтори, не подвоюють підсумки."@,
        ],
        _ => seq![
            "Rows = matching rows, not unique document identifiers."@,
            "Document IDs = distinct recognized document numbers in the current result set."@,
            "Value = SUM of the recognized value field when it is filled."@,
            "$/kg = value / net kg; empty or zero net weight is skipped."@,
            "Group share uses value first; if value is empty, it falls back to net weight, then row count."@,
            "Analytics counts unique rows: duplicate rows flagged as repeats do not double totals."@,
        ],
    }
}

/// The lines of the note on how analytics numbers are calculated.
pub fn analytics_calc_lines(lang: Lang) -> (r: Vec<&'static str>)
    ensures
        strs_view(r@) == calc_lines_text(lang),
{
    let r = match lang {
        Lang::Ua => vec![
            "Рядки = знайдені товарні рядки, не унікальні декларації.",
            "Декларації = унікальні номери МД у поточній вибірці.",
            "Сума = сума поля «ФВ вал.контр», якщо воно заповнене у джерелі.",
            "$/кг = сума / нетто; якщо нетто порожнє або нульове, показник не рахується.",
            "У групах частка рахується від суми; якщо суми немає, використовується нетто, потім кількість рядків.",
            "Аналітика рахує унікальні рядки: дублікати, позначені як повтори, не подвоюють підсумки.",
        ],
        _ => vec![
            "Rows = matching rows, not unique document identifiers.",
            "Document IDs = distinct recognized document numbers in the current result set.",
            "Value = SUM of the recognized value field when it is filled.",
            "$/kg = value / net kg; empty or zero net weight is skipped.",
            "Group share uses value first; if value is empty, it falls back to net weight, then row count.",
            "Analytics counts unique rows: duplicate rows flagged as repeats do not double totals.",
        ],
    };
    assert(strs_view(r@) =~= calc_lines_text(lang));
    r
}

} // verus!
