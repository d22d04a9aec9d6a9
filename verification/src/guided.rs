//! Guided questions: analysis shortcuts offered for the current search
//! (a product, a company, or a filtered slice), with their titles in every
//! interface language and the analysis each one opens.

use vstd::prelude::*;
use crate::text::{blank, is_ws, trim, is_blank, trim_str, chars_of, string_of};
use crate::db_types::{Filters, AnalyticsSectionKind, AnalyticsScope, PivotDim, PivotMetric};

verus! {

/// Interface language.
#[derive(Clone, Copy, Debug, PartialEq, Eq, Structural)]
pub enum Lang {
    En,
    Ua,
    De,
    Es,
    Fr,
    Pl,
    Pt,
    Ro,
    Hu,
    Bg,
    Zh,
}

/// The interface languages in menu order.
pub open spec fn all_langs() -> Seq<Lang> {
    seq![
        Lang::En,
        Lang::Ua,
        Lang::De,
        Lang::Es,
        Lang::Fr,
        Lang::Pl,
        Lang::Pt,
        Lang::Ro,
        Lang::Hu,
        Lang::Bg,
        Lang::Zh,
    ]
}

impl Lang {
    /// Every interface language, in menu order.
    pub fn all() -> (r: Vec<Lang>)
        ensures
            r@ == all_langs(),
    {
        let r = vec![
            Lang::En,
            Lang::Ua,
            Lang::De,
            Lang::Es,
            Lang::Fr,
            Lang::Pl,
            Lang::Pt,
            Lang::Ro,
            Lang::Hu,
            Lang::Bg,
            Lang::Zh,
        ];
        assert(r@ =~= all_langs());
        r
    }
}

#[derive(Clone, Copy, Debug, PartialEq, Eq, Structural)]
pub enum GuidedQuestionSection {
    Product,
    Company,
    Market,
}

#[derive(Clone, Copy, Debug, PartialEq, Eq, Structural)]
pub enum GuidedQuestionKind {
    ProductCompanies,
    ProductAllCompanies,
    ProductGoods,
    ProductCountries,
    ProductPrices,
    ProductTimeline,
    ProductCompaniesByMonth,
    CompanyProfile,
    CompanyGoods,
    CompanySuppliers,
    CompanyCountries,
    CompanyTimeline,
    CompanyGoodsByMonth,
    MarketCompanies,
    MarketGoods,
    MarketCountries,
    MarketPrices,
}

/// Title of the guided questions menu.
pub open spec fn questions_label_text(lang: Lang) -> Seq<char> {
    match lang {
        Lang::En => "Questions"@,
        Lang::Ua => "Питання"@,
        Lang::De => "Fragen"@,
        Lang::Es => "Preguntas"@,
        Lang::Fr => "Questions"@,
        Lang::Pl => "Pytania"@,
        Lang::Pt => "Perguntas"@,
        Lang::Ro => "Întrebări"@,
        Lang::Hu => "Kérdések"@,
        Lang::Bg => "Въпроси"@,
        Lang::Zh => "问题"@,
    }
}

/// Title of the guided questions menu.
pub fn guided_questions_label(lang: Lang) -> (r: &'static str)
    ensures
        r@ == questions_label_text(lang),
{
    match lang {
        Lang::En => "Questions",
        Lang::Ua => "Питання",
        Lang::De => "Fragen",
        Lang::Es => "Preguntas",
        Lang::Fr => "Questions",
        Lang::Pl => "Pytania",
        Lang::Pt => "Perguntas",
        Lang::Ro => "Întrebări",
        Lang::Hu => "Kérdések",
        Lang::Bg => "Въпроси",
        Lang::Zh => "问题",
    }
}

/// Hover text of the guided questions menu.
pub open spec fn questions_hover_text(lang: Lang) -> Seq<char> {
    match lang {
        Lang::En => "Smart shortcuts for the current product, company, or filtered slice."@,
        Lang::Ua => "Розумні сценарії для поточного товару, компанії або фільтра."@,
        Lang::De => "Intelligente Wege für Ware, Firma oder aktuellen Filter."@,
        Lang::Es => "Atajos inteligentes para el producto, empresa o filtro actual."@,
        Lang::Fr => "Raccourcis intelligents pour le produit, l'entreprise ou le filtre actuel."@,
        Lang::Pl => "Inteligentne skróty dla towaru, firmy albo bieżącego filtra."@,
        Lang::Pt => "Atalhos inteligentes para produto, empresa ou filtro atual."@,
        Lang::Ro => "Scurtături inteligente pentru produs, companie sau filtrul curent."@,
        Lang::Hu => "Okos útvonalak az aktuális termékhez, céghez vagy szűrőhöz."@,
        Lang::Bg => "Умни преки пътища за текущия продукт, фирма или филтър."@,
        Lang::Zh => "当前商品、公司或筛选范围的智能分析入口。"@,
    }
}

/// Hover text of the guided questions menu.
pub fn guided_questions_hover(lang: Lang) -> (r: &'static str)
    ensures
        r@ == questions_hover_text(lang),
{
    match lang {
        Lang::En => "Smart shortcuts for the current product, company, or filtered slice.",
        Lang::Ua => "Розумні сценарії для поточного товару, компанії або фільтра.",
        Lang::De => "Intelligente Wege für Ware, Firma oder aktuellen Filter.",
        Lang::Es => "Atajos inteligentes para el producto, empresa o filtro actual.",
        Lang::Fr => "Raccourcis intelligents pour le produit, l'entreprise ou le filtre actuel.",
        Lang::Pl => "Inteligentne skróty dla towaru, firmy albo bieżącego filtra.",
        Lang::Pt => "Atalhos inteligentes para produto, empresa ou filtro atual.",
        Lang::Ro => "Scurtături inteligente pentru produs, companie sau filtrul curent.",
        Lang::Hu => "Okos útvonalak az aktuális termékhez, céghez vagy szűrőhöz.",
        Lang::Bg => "Умни преки пътища за текущия продукт, фирма или филтър.",
        Lang::Zh => "当前商品、公司或筛选范围的智能分析入口。",
    }
}

/// What the guided questions menu shows with nothing to ask about.
pub open spec fn questions_empty_text(lang: Lang) -> Seq<char> {
    match lang {
        Lang::En => "Enter a product, company, code, year, or country first."@,
        Lang::Ua => "Спочатку введіть товар, компанію, код, рік або країну."@,
        Lang::De => "Geben Sie zuerst Ware, Firma, Code, Jahr oder Land ein."@,
        Lang::Es => "Primero introduzca producto, empresa, código, año o país."@,
        Lang::Fr => "Saisissez d'abord un produit, une entreprise, un code, une année ou un pays."@,
        Lang::Pl => "Najpierw wpisz towar, firmę, kod, rok albo kraj."@,
        Lang::Pt => "Digite primeiro produto, empresa, código, ano ou país."@,
        Lang::Ro => "Introduceți mai întâi produs, companie, cod, an sau țară."@,
        Lang::Hu => "Először adjon meg terméket, céget, kódot, évet vagy országot."@,
        Lang::Bg => "Първо въведете продукт, фирма, код, година или държава."@,
        Lang::Zh => "请先输入商品、公司、编码、年份或国家。"@,
    }
}

/// What the guided questions menu shows with nothing to ask about.
pub fn guided_questions_empty(lang: Lang) -> (r: &'static str)
    ensures
        r@ == questions_empty_text(lang),
{
    match lang {
        Lang::En => "Enter a product, company, code, year, or country first.",
        Lang::Ua => "Спочатку введіть товар, компанію, код, рік або країну.",
        Lang::De => "Geben Sie zuerst Ware, Firma, Code, Jahr oder Land ein.",
        Lang::Es => "Primero introduzca producto, empresa, código, año o país.",
        Lang::Fr => "Saisissez d'abord un produit, une entreprise, un code, une année ou un pays.",
        Lang::Pl => "Najpierw wpisz towar, firmę, kod, rok albo kraj.",
        Lang::Pt => "Digite primeiro produto, empresa, código, ano ou país.",
        Lang::Ro => "Introduceți mai întâi produs, companie, cod, an sau țară.",
        Lang::Hu => "Először adjon meg terméket, céget, kódot, évet vagy országot.",
        Lang::Bg => "Първо въведете продукт, фирма, код, година или държава.",
        Lang::Zh => "请先输入商品、公司、编码、年份或国家。",
    }
}

/// Title of a section of guided questions.
pub open spec fn section_title_text(k: GuidedQuestionSection, lang: Lang) -> Seq<char> {
    match k {
        GuidedQuestionSection::Product => match lang {
            Lang::En => "For this product or search"@,
            Lang::Ua => "Для цього товару або запиту"@,
            Lang::De => "Zu dieser Ware oder Suche"@,
            Lang::Es => "Para este producto o búsqueda"@,
            Lang::Fr => "Pour ce produit ou cette recherche"@,
            Lang::Pl => "Dla tego towaru lub wyszukiwania"@,
            Lang::Pt => "Para este produto ou busca"@,
            Lang::Ro => "Pentru acest produs sau căutare"@,
            Lang::Hu => "Ehhez a termékhez vagy kereséshez"@,
            Lang::Bg => "За този продукт или търсене"@,
            Lang::Zh => "针对当前商品或搜索"@,
        },
        GuidedQuestionSection::Company => match lang {
            Lang::En => "For this company"@,
            Lang::Ua => "Для цієї компанії"@,
            Lang::De => "Zu dieser Firma"@,
            Lang::Es => "Para esta empresa"@,
            Lang::Fr => "Pour cette entreprise"@,
            Lang::Pl => "Dla tej firmy"@,
            Lang::Pt => "Para esta empresa"@,
            Lang::Ro => "Pentru această companie"@,
            Lang::Hu => "Ehhez a céghez"@,
            Lang::Bg => "За тази фирма"@,
            Lang::Zh => "针对当前公司"@,
        },
        GuidedQuestionSection::Market => match lang {
            Lang::En => "For the current slice"@,
            Lang::Ua => "Для поточної вибірки"@,
            Lang::De => "Zum aktuellen Ausschnitt"@,
            Lang::Es => "Para la selección actual"@,
            Lang::Fr => "Pour le périmètre actuel"@,
            Lang::Pl => "Dla bieżącego zakresu"@,
            Lang::Pt => "Para o recorte atual"@,
            Lang::Ro => "Pentru selecția curentă"@,
            Lang::Hu => "Az aktuális szűréshez"@,
            Lang::Bg => "За текущата извадка"@,
            Lang::Zh => "针对当前筛选范围"@,
        },
    }
}

/// Title of a section of guided questions.
pub fn guided_section_title(k: GuidedQuestionSection, lang: Lang) -> (r: &'static str)
    ensures
        r@ == section_title_text(k, lang),
{
    match k {
        GuidedQuestionSection::Product => match lang {
            Lang::En => "For this product or search",
            Lang::Ua => "Для цього товару або запиту",
            Lang::De => "Zu dieser Ware oder Suche",
            Lang::Es => "Para este producto o búsqueda",
            Lang::Fr => "Pour ce produit ou cette recherche",
            Lang::Pl => "Dla tego towaru lub wyszukiwania",
            Lang::Pt => "Para este produto ou busca",
            Lang::Ro => "Pentru acest produs sau căutare",
            Lang::Hu => "Ehhez a termékhez vagy kereséshez",
            Lang::Bg => "За този продукт или търсене",
            Lang::Zh => "针对当前商品或搜索",
        },
        GuidedQuestionSection::Company => match lang {
            Lang::En => "For this company",
            Lang::Ua => "Для цієї компанії",
            Lang::De => "Zu dieser Firma",
            Lang::Es => "Para esta empresa",
            Lang::Fr => "Pour cette entreprise",
            Lang::Pl => "Dla tej firmy",
            Lang::Pt => "Para esta empresa",
            Lang::Ro => "Pentru această companie",
            Lang::Hu => "Ehhez a céghez",
            Lang::Bg => "За тази фирма",
            Lang::Zh => "针对当前公司",
        },
        GuidedQuestionSection::Market => match lang {
            Lang::En => "For the current slice",
            Lang::Ua => "Для поточної вибірки",
            Lang::De => "Zum aktuellen Ausschnitt",
            Lang::Es => "Para la selección actual",
            Lang::Fr => "Pour le périmètre actuel",
            Lang::Pl => "Dla bieżącego zakresu",
            Lang::Pt => "Para o recorte atual",
            Lang::Ro => "Pentru selecția curentă",
            Lang::Hu => "Az aktuális szűréshez",
            Lang::Bg => "За текущата извадка",
            Lang::Zh => "针对当前筛选范围",
        },
    }
}

/// Every title of a section of guided questions has text in every language.
pub proof fn lemma_section_title_text_not_blank(k: GuidedQuestionSection, lang: Lang)
    ensures
        !blank(section_title_text(k, lang)),
{
    match k {
        GuidedQuestionSection::Product => match lang {
            Lang::En => {
                reveal_strlit("For this product or search");
                assert(!is_ws("For this product or search"@[0]));
            },
            Lang::Ua => {
                reveal_strlit("Для цього товару або запиту");
                assert(!is_ws("Для цього товару або запиту"@[0]));
            },
            Lang::De => {
                reveal_strlit("Zu dieser Ware oder Suche");
                assert(!is_ws("Zu dieser Ware oder Suche"@[0]));
            },
            Lang::Es => {
                reveal_strlit("Para este producto o búsqueda");
                assert(!is_ws("Para este producto o búsqueda"@[0]));
            },
            Lang::Fr => {
                reveal_strlit("Pour ce produit ou cette recherche");
                assert(!is_ws("Pour ce produit ou cette recherche"@[0]));
            },
            Lang::Pl => {
                reveal_strlit("Dla tego towaru lub wyszukiwania");
                assert(!is_ws("Dla tego towaru lub wyszukiwania"@[0]));
            },
            Lang::Pt => {
                reveal_strlit("Para este produto ou busca");
                assert(!is_ws("Para este produto ou busca"@[0]));
            },
            Lang::Ro => {
                reveal_strlit("Pentru acest produs sau căutare");
                assert(!is_ws("Pentru acest produs sau căutare"@[0]));
            },
            Lang::Hu => {
                reveal_strlit("Ehhez a termékhez vagy kereséshez");
                assert(!is_ws("Ehhez a termékhez vagy kereséshez"@[0]));
            },
            Lang::Bg => {
                reveal_strlit("За този продукт или търсене");
                assert(!is_ws("За този продукт или търсене"@[0]));
            },
            Lang::Zh => {
                reveal_strlit("针对当前商品或搜索");
                assert(!is_ws("针对当前商品或搜索"@[0]));
            },
        },
        GuidedQuestionSection::Company => match lang {
            Lang::En => {
                reveal_strlit("For this company");
                assert(!is_ws("For this company"@[0]));
            },
            Lang::Ua => {
                reveal_strlit("Для цієї компанії");
                assert(!is_ws("Для цієї компанії"@[0]));
            },
            Lang::De => {
                reveal_strlit("Zu dieser Firma");
                assert(!is_ws("Zu dieser Firma"@[0]));
            },
            Lang::Es => {
                reveal_strlit("Para esta empresa");
                assert(!is_ws("Para esta empresa"@[0]));
            },
            Lang::Fr => {
                reveal_strlit("Pour cette entreprise");
                assert(!is_ws("Pour cette entreprise"@[0]));
            },
            Lang::Pl => {
                reveal_strlit("Dla tej firmy");
                assert(!is_ws("Dla tej firmy"@[0]));
            },
            Lang::Pt => {
                reveal_strlit("Para esta empresa");
                assert(!is_ws("Para esta empresa"@[0]));
            },
            Lang::Ro => {
                reveal_strlit("Pentru această companie");
                assert(!is_ws("Pentru această companie"@[0]));
            },
            Lang::Hu => {
                reveal_strlit("Ehhez a céghez");
                assert(!is_ws("Ehhez a céghez"@[0]));
            },
            Lang::Bg => {
                reveal_strlit("За тази фирма");
                assert(!is_ws("За тази фирма"@[0]));
            },
            Lang::Zh => {
                reveal_strlit("针对当前公司");
                assert(!is_ws("针对当前公司"@[0]));
            },
        },
        GuidedQuestionSection::Market => match lang {
            Lang::En => {
                reveal_strlit("For the current slice");
                assert(!is_ws("For the current slice"@[0]));
            },
            Lang::Ua => {
                reveal_strlit("Для поточної вибірки");
                assert(!is_ws("Для поточної вибірки"@[0]));
            },
            Lang::De => {
                reveal_strlit("Zum aktuellen Ausschnitt");
                assert(!is_ws("Zum aktuellen Ausschnitt"@[0]));
            },
            Lang::Es => {
                reveal_strlit("Para la selección actual");
                assert(!is_ws("Para la selección actual"@[0]));
            },
            Lang::Fr => {
                reveal_strlit("Pour le périmètre actuel");
                assert(!is_ws("Pour le périmètre actuel"@[0]));
            },
            Lang::Pl => {
                reveal_strlit("Dla bieżącego zakresu");
                assert(!is_ws("Dla bieżącego zakresu"@[0]));
            },
            Lang::Pt => {
                reveal_strlit("Para o recorte atual");
                assert(!is_ws("Para o recorte atual"@[0]));
            },
            Lang::Ro => {
                reveal_strlit("Pentru selecția curentă");
                assert(!is_ws("Pentru selecția curentă"@[0]));
            },
            Lang::Hu => {
                reveal_strlit("Az aktuális szűréshez");
                assert(!is_ws("Az aktuális szűréshez"@[0]));
            },
            Lang::Bg => {
                reveal_strlit("За текущата извадка");
                assert(!is_ws("За текущата извадка"@[0]));
            },
            Lang::Zh => {
                reveal_strlit("针对当前筛选范围");
                assert(!is_ws("针对当前筛选范围"@[0]));
            },
        },
    }
}

/// Title of a guided question.
pub open spec fn question_title_text(k: GuidedQuestionKind, lang: Lang) -> Seq<char> {
    match k {
        GuidedQuestionKind::ProductCompanies => match lang {
            Lang::En => "Who received or imported it?"@,
            Lang::Ua => "Хто отримував або ввозив це?"@,
            Lang::De => "Wer hat es erhalten oder importiert?"@,
            Lang::Es => "¿Quién lo recibió o importó?"@,
            Lang::Fr => "Qui l'a reçu ou importé ?"@,
            Lang::Pl => "Kto to odbierał lub importował?"@,
            Lang::Pt => "Quem recebeu ou importou isso?"@,
            Lang::Ro => "Cine a primit sau importat?"@,
            Lang::Hu => "Ki kapta vagy importálta?"@,
            Lang::Bg => "Кой го е получавал или внасял?"@,
            Lang::Zh => "谁接收或进口了它？"@,
        },
        GuidedQuestionKind::ProductAllCompanies => match lang {
            Lang::En => "Show every company and identifier"@,
            Lang::Ua => "Показати всі компанії та ЄДРПОУ"@,
            Lang::De => "Alle Firmen und EDRPOU anzeigen"@,
            Lang::Es => "Mostrar todas las empresas y EDRPOU"@,
            Lang::Fr => "Afficher toutes les entreprises et EDRPOU"@,
            Lang::Pl => "Pokaż wszystkie firmy i EDRPOU"@,
            Lang::Pt => "Mostrar todas as empresas e EDRPOU"@,
            Lang::Ro => "Arată toate companiile și EDRPOU"@,
            Lang::Hu => "Összes cég és EDRPOU megjelenítése"@,
            Lang::Bg => "Покажи всички фирми и ЕДРПОУ"@,
            Lang::Zh => "显示所有公司和EDRPOU"@,
        },
        GuidedQuestionKind::ProductGoods => match lang {
            Lang::En => "Which product codes and brands are inside?"@,
            Lang::Ua => "Які коди товару та бренди всередині?"@,
            Lang::De => "Welche Warencodes und Marken stecken darin?"@,
            Lang::Es => "¿Qué códigos y marcas contiene?"@,
            Lang::Fr => "Quels codes produit et marques contient-il ?"@,
            Lang::Pl => "Jakie kody towaru i marki są w środku?"@,
            Lang::Pt => "Quais códigos de produto e marcas aparecem?"@,
            Lang::Ro => "Ce coduri de produs și mărci conține?"@,
            Lang::Hu => "Milyen termékkódok és márkák vannak benne?"@,
            Lang::Bg => "Какви кодове и марки има вътре?"@,
            Lang::Zh => "包含哪些商品编码和品牌？"@,
        },
        GuidedQuestionKind::ProductCountries => match lang {
            Lang::En => "From which countries and routes?"@,
            Lang::Ua => "З яких країн і маршрутів?"@,
            Lang::De => "Aus welchen Ländern und Routen?"@,
            Lang::Es => "¿Desde qué países y rutas?"@,
            Lang::Fr => "Depuis quels pays et routes ?"@,
            Lang::Pl => "Z jakich krajów i tras?"@,
            Lang::Pt => "De quais países e rotas?"@,
            Lang::Ro => "Din ce țări și rute?"@,
            Lang::Hu => "Mely országokból és útvonalakon?"@,
            Lang::Bg => "От кои държави и маршрути?"@,
            Lang::Zh => "来自哪些国家和路线？"@,
        },
        GuidedQuestionKind::ProductPrices => match lang {
            Lang::En => "What is the price and $/kg picture?"@,
            Lang::Ua => "Яка ціна та картина $/кг?"@,
            Lang::De => "Wie sieht Preis und $/kg aus?"@,
            Lang::Es => "¿Cómo se ven precio y $/kg?"@,
            Lang::Fr => "Quelle est la situation prix et $/kg ?"@,
            Lang::Pl => "Jak wygląda cena i $/kg?"@,
            Lang::Pt => "Como estão preço e $/kg?"@,
            Lang::Ro => "Cum arată prețul și $/kg?"@,
            Lang::Hu => "Milyen az ár és $/kg képe?"@,
            Lang::Bg => "Как изглеждат цена и $/кг?"@,
            Lang::Zh => "价格和$/公斤情况如何？"@,
        },
        GuidedQuestionKind::ProductTimeline => match lang {
            Lang::En => "How did value and weight change by month?"@,
            Lang::Ua => "Як змінювались вартість і вага по місяцях?"@,
            Lang::De => "Wie änderten sich Wert und Gewicht je Monat?"@,
            Lang::Es => "¿Cómo cambiaron valor y peso por mes?"@,
            Lang::Fr => "Comment valeur et poids ont-ils changé par mois ?"@,
            Lang::Pl => "Jak zmieniały się wartość i waga miesięcznie?"@,
            Lang::Pt => "Como valor e peso mudaram por mês?"@,
            Lang::Ro => "Cum s-au schimbat valoarea și greutatea lunar?"@,
            Lang::Hu => "Hogyan változott az érték és a súly havonta?"@,
            Lang::Bg => "Как се променяха стойност и тегло по месеци?"@,
            Lang::Zh => "金额和重量按月如何变化？"@,
        },
        GuidedQuestionKind::ProductCompaniesByMonth => match lang {
            Lang::En => "Compare companies by month"@,
            Lang::Ua => "Порівняти компанії по місяцях"@,
            Lang::De => "Firmen nach Monaten vergleichen"@,
            Lang::Es => "Comparar empresas por mes"@,
            Lang::Fr => "Comparer les entreprises par mois"@,
            Lang::Pl => "Porównaj firmy według miesięcy"@,
            Lang::Pt => "Comparar empresas por mês"@,
            Lang::Ro => "Compară companiile pe luni"@,
            Lang::Hu => "Cégek összehasonlítása hónaponként"@,
            Lang::Bg => "Сравни фирмите по месеци"@,
            Lang::Zh => "按月比较公司"@,
        },
        GuidedQuestionKind::CompanyProfile => match lang {
            Lang::En => "Open the full company dossier"@,
            Lang::Ua => "Відкрити повне досьє компанії"@,
            Lang::De => "Vollständiges Firmendossier öffnen"@,
            Lang::Es => "Abrir el expediente completo de la empresa"@,
            Lang::Fr => "Ouvrir le dossier complet de l'entreprise"@,
            Lang::Pl => "Otwórz pełny profil firmy"@,
            Lang::Pt => "Abrir o dossiê completo da empresa"@,
            Lang::Ro => "Deschide dosarul complet al companiei"@,
            Lang::Hu => "Teljes cégdosszié megnyitása"@,
            Lang::Bg => "Отвори пълното досие на фирмата"@,
            Lang::Zh => "打开完整公司档案"@,
        },
        GuidedQuestionKind::CompanyGoods => match lang {
            Lang::En => "What did this company move?"@,
            Lang::Ua => "Що переміщувала ця компанія?"@,
            Lang::De => "Welche Waren bewegte diese Firma?"@,
            Lang::Es => "¿Qué movió esta empresa?"@,
            Lang::Fr => "Quelles marchandises cette entreprise a-t-elle traitées ?"@,
            Lang::Pl => "Co przewoziła ta firma?"@,
            Lang::Pt => "O que esta empresa movimentou?"@,
            Lang::Ro => "Ce a transportat această companie?"@,
            Lang::Hu => "Mit mozgatott ez a cég?"@,
            Lang::Bg => "Какво е превозвала тази фирма?"@,
            Lang::Zh => "这家公司运输了什么？"@,
        },
        GuidedQuestionKind::CompanySuppliers => match lang {
            Lang::En => "Who supplied this company?"@,
            Lang::Ua => "Хто постачав цій компанії?"@,
            Lang::De => "Wer belieferte diese Firma?"@,
            Lang::Es => "¿Quién abasteció a esta empresa?"@,
            Lang::Fr => "Qui a fourni cette entreprise ?"@,
            Lang::Pl => "Kto dostarczał tej firmie?"@,
            Lang::Pt => "Quem forneceu para esta empresa?"@,
            Lang::Ro => "Cine a furnizat această companie?"@,
            Lang::Hu => "Ki szállított ennek a cégnek?"@,
            Lang::Bg => "Кой е доставял на тази фирма?"@,
            Lang::Zh => "谁给这家公司供货？"@,
        },
        GuidedQuestionKind::CompanyCountries => match lang {
            Lang::En => "Which countries did it work with?"@,
            Lang::Ua => "З якими країнами вона працювала?"@,
            Lang::De => "Mit welchen Ländern arbeitete sie?"@,
            Lang::Es => "¿Con qué países trabajó?"@,
            Lang::Fr => "Avec quels pays a-t-elle travaillé ?"@,
            Lang::Pl => "Z jakimi krajami współpracowała?"@,
            Lang::Pt => "Com quais países trabalhou?"@,
            Lang::Ro => "Cu ce țări a lucrat?"@,
            Lang::Hu => "Mely országokkal dolgozott?"@,
            Lang::Bg => "С кои държави е работила?"@,
            Lang::Zh => "它与哪些国家往来？"@,
        },
        GuidedQuestionKind::CompanyTimeline => match lang {
            Lang::En => "How did this company change by month?"@,
            Lang::Ua => "Як ця компанія змінювалась по місяцях?"@,
            Lang::De => "Wie veränderte sich diese Firma je Monat?"@,
            Lang::Es => "¿Cómo cambió esta empresa por mes?"@,
            Lang::Fr => "Comment cette entreprise a-t-elle évolué par mois ?"@,
            Lang::Pl => "Jak firma zmieniała się miesięcznie?"@,
            Lang::Pt => "Como esta empresa mudou por mês?"@,
            Lang::Ro => "Cum s-a schimbat compania pe luni?"@,
            Lang::Hu => "Hogyan változott a cég havonta?"@,
            Lang::Bg => "Как се променяше фирмата по месеци?"@,
            Lang::Zh => "这家公司按月如何变化？"@,
        },
        GuidedQuestionKind::CompanyGoodsByMonth => match lang {
            Lang::En => "Compare product codes by month"@,
            Lang::Ua => "Порівняти коди товару по місяцях"@,
            Lang::De => "Warencodes nach Monaten vergleichen"@,
            Lang::Es => "Comparar códigos de producto por mes"@,
            Lang::Fr => "Comparer les codes produit par mois"@,
            Lang::Pl => "Porównaj kody towarów według miesięcy"@,
            Lang::Pt => "Comparar códigos de produto por mês"@,
            Lang::Ro => "Compară codurile de produs pe luni"@,
            Lang::Hu => "Termékkódok összehasonlítása hónaponként"@,
            Lang::Bg => "Сравни кодовете по месеци"@,
            Lang::Zh => "按月比较商品编码"@,
        },
        GuidedQuestionKind::MarketCompanies => match lang {
            Lang::En => "Who are the biggest companies here?"@,
            Lang::Ua => "Хто найбільші компанії у вибірці?"@,
            Lang::De => "Wer sind hier die größten Firmen?"@,
            Lang::Es => "¿Cuáles son las empresas más grandes aquí?"@,
            Lang::Fr => "Quelles sont les plus grandes entreprises ici ?"@,
            Lang::Pl => "Które firmy są tu największe?"@,
            Lang::Pt => "Quais são as maiores empresas aqui?"@,
            Lang::Ro => "Care sunt cele mai mari companii aici?"@,
            Lang::Hu => "Melyek itt a legnagyobb cégek?"@,
            Lang::Bg => "Кои са най-големите фирми тук?"@,
            Lang::Zh => "这里最大的公司是谁？"@,
        },
        GuidedQuestionKind::MarketGoods => match lang {
            Lang::En => "Which goods dominate this slice?"@,
            Lang::Ua => "Які товари домінують у вибірці?"@,
            Lang::De => "Welche Waren dominieren diesen Ausschnitt?"@,
            Lang::Es => "¿Qué mercancías dominan esta selección?"@,
            Lang::Fr => "Quelles marchandises dominent ce périmètre ?"@,
            Lang::Pl => "Jakie towary dominują w tym zakresie?"@,
            Lang::Pt => "Quais mercadorias dominam este recorte?"@,
            Lang::Ro => "Ce mărfuri domină această selecție?"@,
            Lang::Hu => "Mely áruk dominálnak ebben a szűrésben?"@,
            Lang::Bg => "Кои стоки доминират в тази извадка?"@,
            Lang::Zh => "这个范围内哪些商品占主导？"@,
        },
        GuidedQuestionKind::MarketCountries => match lang {
            Lang::En => "Which countries and routes dominate?"@,
            Lang::Ua => "Які країни та маршрути домінують?"@,
            Lang::De => "Welche Länder und Routen dominieren?"@,
            Lang::Es => "¿Qué países y rutas dominan?"@,
            Lang::Fr => "Quels pays et routes dominent ?"@,
            Lang::Pl => "Jakie kraje i trasy dominują?"@,
            Lang::Pt => "Quais países e rotas dominam?"@,
            Lang::Ro => "Ce țări și rute domină?"@,
            Lang::Hu => "Mely országok és útvonalak dominálnak?"@,
            Lang::Bg => "Кои държави и маршрути доминират?"@,
            Lang::Zh => "哪些国家和路线占主导？"@,
        },
        GuidedQuestionKind::MarketPrices => match lang {
            Lang::En => "Are prices normal in this slice?"@,
            Lang::Ua => "Чи нормальні ціни в цій вибірці?"@,
            Lang::De => "Sind die Preise in diesem Ausschnitt normal?"@,
            Lang::Es => "¿Son normales los precios en esta selección?"@,
            Lang::Fr => "Les prix sont-ils normaux dans ce périmètre ?"@,
            Lang::Pl => "Czy ceny w tym zakresie są normalne?"@,
            Lang::Pt => "Os preços são normais neste recorte?"@,
            Lang::Ro => "Sunt prețurile normale în această selecție?"@,
            Lang::Hu => "Normálisak az árak ebben a szűrésben?"@,
            Lang::Bg => "Нормални ли са цените в тази извадка?"@,
            Lang::Zh => "这个范围内价格是否正常？"@,
        },
    }
}

/// Title of a guided question.
pub fn guided_question_title(k: GuidedQuestionKind, lang: Lang) -> (r: &'static str)
    ensures
        r@ == question_title_text(k, lang),
{
    match k {
        GuidedQuestionKind::ProductCompanies => match lang {
            Lang::En => "Who received or imported it?",
            Lang::Ua => "Хто отримував або ввозив це?",
            Lang::De => "Wer hat es erhalten oder importiert?",
            Lang::Es => "¿Quién lo recibió o importó?",
            Lang::Fr => "Qui l'a reçu ou importé ?",
            Lang::Pl => "Kto to odbierał lub importował?",
            Lang::Pt => "Quem recebeu ou importou isso?",
            Lang::Ro => "Cine a primit sau importat?",
            Lang::Hu => "Ki kapta vagy importálta?",
            Lang::Bg => "Кой го е получавал или внасял?",
            Lang::Zh => "谁接收或进口了它？",
        },
        GuidedQuestionKind::ProductAllCompanies => match lang {
            Lang::En => "Show every company and identifier",
            Lang::Ua => "Показати всі компанії та ЄДРПОУ",
            Lang::De => "Alle Firmen und EDRPOU anzeigen",
            Lang::Es => "Mostrar todas las empresas y EDRPOU",
            Lang::Fr => "Afficher toutes les entreprises et EDRPOU",
            Lang::Pl => "Pokaż wszystkie firmy i EDRPOU",
            Lang::Pt => "Mostrar todas as empresas e EDRPOU",
            Lang::Ro => "Arată toate companiile și EDRPOU",
            Lang::Hu => "Összes cég és EDRPOU megjelenítése",
            Lang::Bg => "Покажи всички фирми и ЕДРПОУ",
            Lang::Zh => "显示所有公司和EDRPOU",
        },
        GuidedQuestionKind::ProductGoods => match lang {
            Lang::En => "Which product codes and brands are inside?",
            Lang::Ua => "Які коди товару та бренди всередині?",
            Lang::De => "Welche Warencodes und Marken stecken darin?",
            Lang::Es => "¿Qué códigos y marcas contiene?",
            Lang::Fr => "Quels codes produit et marques contient-il ?",
            Lang::Pl => "Jakie kody towaru i marki są w środku?",
            Lang::Pt => "Quais códigos de produto e marcas aparecem?",
            Lang::Ro => "Ce coduri de produs și mărci conține?",
            Lang::Hu => "Milyen termékkódok és márkák vannak benne?",
            Lang::Bg => "Какви кодове и марки има вътре?",
            Lang::Zh => "包含哪些商品编码和品牌？",
        },
        GuidedQuestionKind::ProductCountries => match lang {
            Lang::En => "From which countries and routes?",
            Lang::Ua => "З яких країн і маршрутів?",
            Lang::De => "Aus welchen Ländern und Routen?",
            Lang::Es => "¿Desde qué países y rutas?",
            Lang::Fr => "Depuis quels pays et routes ?",
            Lang::Pl => "Z jakich krajów i tras?",
            Lang::Pt => "De quais países e rotas?",
            Lang::Ro => "Din ce țări și rute?",
            Lang::Hu => "Mely országokból és útvonalakon?",
            Lang::Bg => "От кои държави и маршрути?",
            Lang::Zh => "来自哪些国家和路线？",
        },
        GuidedQuestionKind::ProductPrices => match lang {
            Lang::En => "What is the price and $/kg picture?",
            Lang::Ua => "Яка ціна та картина $/кг?",
            Lang::De => "Wie sieht Preis und $/kg aus?",
            Lang::Es => "¿Cómo se ven precio y $/kg?",
            Lang::Fr => "Quelle est la situation prix et $/kg ?",
            Lang::Pl => "Jak wygląda cena i $/kg?",
            Lang::Pt => "Como estão preço e $/kg?",
            Lang::Ro => "Cum arată prețul și $/kg?",
            Lang::Hu => "Milyen az ár és $/kg képe?",
            Lang::Bg => "Как изглеждат цена и $/кг?",
            Lang::Zh => "价格和$/公斤情况如何？",
        },
        GuidedQuestionKind::ProductTimeline => match lang {
            Lang::En => "How did value and weight change by month?",
            Lang::Ua => "Як змінювались вартість і вага по місяцях?",
            Lang::De => "Wie änderten sich Wert und Gewicht je Monat?",
            Lang::Es => "¿Cómo cambiaron valor y peso por mes?",
            Lang::Fr => "Comment valeur et poids ont-ils changé par mois ?",
            Lang::Pl => "Jak zmieniały się wartość i waga miesięcznie?",
            Lang::Pt => "Como valor e peso mudaram por mês?",
            Lang::Ro => "Cum s-au schimbat valoarea și greutatea lunar?",
            Lang::Hu => "Hogyan változott az érték és a súly havonta?",
            Lang::Bg => "Как се променяха стойност и тегло по месеци?",
            Lang::Zh => "金额和重量按月如何变化？",
        },
        GuidedQuestionKind::ProductCompaniesByMonth => match lang {
            Lang::En => "Compare companies by month",
            Lang::Ua => "Порівняти компанії по місяцях",
            Lang::De => "Firmen nach Monaten vergleichen",
            Lang::Es => "Comparar empresas por mes",
            Lang::Fr => "Comparer les entreprises par mois",
            Lang::Pl => "Porównaj firmy według miesięcy",
            Lang::Pt => "Comparar empresas por mês",
            Lang::Ro => "Compară companiile pe luni",
            Lang::Hu => "Cégek összehasonlítása hónaponként",
            Lang::Bg => "Сравни фирмите по месеци",
            Lang::Zh => "按月比较公司",
        },
        GuidedQuestionKind::CompanyProfile => match lang {
            Lang::En => "Open the full company dossier",
            Lang::Ua => "Відкрити повне досьє компанії",
            Lang::De => "Vollständiges Firmendossier öffnen",
            Lang::Es => "Abrir el expediente completo de la empresa",
            Lang::Fr => "Ouvrir le dossier complet de l'entreprise",
            Lang::Pl => "Otwórz pełny profil firmy",
            Lang::Pt => "Abrir o dossiê completo da empresa",
            Lang::Ro => "Deschide dosarul complet al companiei",
            Lang::Hu => "Teljes cégdosszié megnyitása",
            Lang::Bg => "Отвори пълното досие на фирмата",
            Lang::Zh => "打开完整公司档案",
        },
        GuidedQuestionKind::CompanyGoods => match lang {
            Lang::En => "What did this company move?",
            Lang::Ua => "Що переміщувала ця компанія?",
            Lang::De => "Welche Waren bewegte diese Firma?",
            Lang::Es => "¿Qué movió esta empresa?",
            Lang::Fr => "Quelles marchandises cette entreprise a-t-elle traitées ?",
            Lang::Pl => "Co przewoziła ta firma?",
            Lang::Pt => "O que esta empresa movimentou?",
            Lang::Ro => "Ce a transportat această companie?",
            Lang::Hu => "Mit mozgatott ez a cég?",
            Lang::Bg => "Какво е превозвала тази фирма?",
            Lang::Zh => "这家公司运输了什么？",
        },
        GuidedQuestionKind::CompanySuppliers => match lang {
            Lang::En => "Who supplied this company?",
            Lang::Ua => "Хто постачав цій компанії?",
            Lang::De => "Wer belieferte diese Firma?",
            Lang::Es => "¿Quién abasteció a esta empresa?",
            Lang::Fr => "Qui a fourni cette entreprise ?",
            Lang::Pl => "Kto dostarczał tej firmie?",
            Lang::Pt => "Quem forneceu para esta empresa?",
            Lang::Ro => "Cine a furnizat această companie?",
            Lang::Hu => "Ki szállított ennek a cégnek?",
            Lang::Bg => "Кой е доставял на тази фирма?",
            Lang::Zh => "谁给这家公司供货？",
        },
        GuidedQuestionKind::CompanyCountries => match lang {
            Lang::En => "Which countries did it work with?",
            Lang::Ua => "З якими країнами вона працювала?",
            Lang::De => "Mit welchen Ländern arbeitete sie?",
            Lang::Es => "¿Con qué países trabajó?",
            Lang::Fr => "Avec quels pays a-t-elle travaillé ?",
            Lang::Pl => "Z jakimi krajami współpracowała?",
            Lang::Pt => "Com quais países trabalhou?",
            Lang::Ro => "Cu ce țări a lucrat?",
            Lang::Hu => "Mely országokkal dolgozott?",
            Lang::Bg => "С кои държави е работила?",
            Lang::Zh => "它与哪些国家往来？",
        },
        GuidedQuestionKind::CompanyTimeline => match lang {
            Lang::En => "How did this company change by month?",
            Lang::Ua => "Як ця компанія змінювалась по місяцях?",
            Lang::De => "Wie veränderte sich diese Firma je Monat?",
            Lang::Es => "¿Cómo cambió esta empresa por mes?",
            Lang::Fr => "Comment cette entreprise a-t-elle évolué par mois ?",
            Lang::Pl => "Jak firma zmieniała się miesięcznie?",
            Lang::Pt => "Como esta empresa mudou por mês?",
            Lang::Ro => "Cum s-a schimbat compania pe luni?",
            Lang::Hu => "Hogyan változott a cég havonta?",
            Lang::Bg => "Как се променяше фирмата по месеци?",
            Lang::Zh => "这家公司按月如何变化？",
        },
        GuidedQuestionKind::CompanyGoodsByMonth => match lang {
            Lang::En => "Compare product codes by month",
            Lang::Ua => "Порівняти коди товару по місяцях",
            Lang::De => "Warencodes nach Monaten vergleichen",
            Lang::Es => "Comparar códigos de producto por mes",
            Lang::Fr => "Comparer les codes produit par mois",
            Lang::Pl => "Porównaj kody towarów według miesięcy",
            Lang::Pt => "Comparar códigos de produto por mês",
            Lang::Ro => "Compară codurile de produs pe luni",
            Lang::Hu => "Termékkódok összehasonlítása hónaponként",
            Lang::Bg => "Сравни кодовете по месеци",
            Lang::Zh => "按月比较商品编码",
        },
        GuidedQuestionKind::MarketCompanies => match lang {
            Lang::En => "Who are the biggest companies here?",
            Lang::Ua => "Хто найбільші компанії у вибірці?",
            Lang::De => "Wer sind hier die größten Firmen?",
            Lang::Es => "¿Cuáles son las empresas más grandes aquí?",
            Lang::Fr => "Quelles sont les plus grandes entreprises ici ?",
            Lang::Pl => "Które firmy są tu największe?",
            Lang::Pt => "Quais são as maiores empresas aqui?",
            Lang::Ro => "Care sunt cele mai mari companii aici?",
            Lang::Hu => "Melyek itt a legnagyobb cégek?",
            Lang::Bg => "Кои са най-големите фирми тук?",
            Lang::Zh => "这里最大的公司是谁？",
        },
        GuidedQuestionKind::MarketGoods => match lang {
            Lang::En => "Which goods dominate this slice?",
            Lang::Ua => "Які товари домінують у вибірці?",
            Lang::De => "Welche Waren dominieren diesen Ausschnitt?",
            Lang::Es => "¿Qué mercancías dominan esta selección?",
            Lang::Fr => "Quelles marchandises dominent ce périmètre ?",
            Lang::Pl => "Jakie towary dominują w tym zakresie?",
            Lang::Pt => "Quais mercadorias dominam este recorte?",
            Lang::Ro => "Ce mărfuri domină această selecție?",
            Lang::Hu => "Mely áruk dominálnak ebben a szűrésben?",
            Lang::Bg => "Кои стоки доминират в тази извадка?",
            Lang::Zh => "这个范围内哪些商品占主导？",
        },
        GuidedQuestionKind::MarketCountries => match lang {
            Lang::En => "Which countries and routes dominate?",
            Lang::Ua => "Які країни та маршрути домінують?",
            Lang::De => "Welche Länder und Routen dominieren?",
            Lang::Es => "¿Qué países y rutas dominan?",
            Lang::Fr => "Quels pays et routes dominent ?",
            Lang::Pl => "Jakie kraje i trasy dominują?",
            Lang::Pt => "Quais países e rotas dominam?",
            Lang::Ro => "Ce țări și rute domină?",
            Lang::Hu => "Mely országok és útvonalak dominálnak?",
            Lang::Bg => "Кои държави и маршрути доминират?",
            Lang::Zh => "哪些国家和路线占主导？",
        },
        GuidedQuestionKind::MarketPrices => match lang {
            Lang::En => "Are prices normal in this slice?",
            Lang::Ua => "Чи нормальні ціни в цій вибірці?",
            Lang::De => "Sind die Preise in diesem Ausschnitt normal?",
            Lang::Es => "¿Son normales los precios en esta selección?",
            Lang::Fr => "Les prix sont-ils normaux dans ce périmètre ?",
            Lang::Pl => "Czy ceny w tym zakresie są normalne?",
            Lang::Pt => "Os preços são normais neste recorte?",
            Lang::Ro => "Sunt prețurile normale în această selecție?",
            Lang::Hu => "Normálisak az árak ebben a szűrésben?",
            Lang::Bg => "Нормални ли са цените в тази извадка?",
            Lang::Zh => "这个范围内价格是否正常？",
        },
    }
}

/// Every title of a guided question has text in every language.
pub proof fn lemma_question_title_text_not_blank(k: GuidedQuestionKind, lang: Lang)
    ensures
        !blank(question_title_text(k, lang)),
{
    match k {
        GuidedQuestionKind::ProductCompanies => match lang {
            Lang::En => {
                reveal_strlit("Who received or imported it?");
                assert(!is_ws("Who received or imported it?"@[0]));
            },
            Lang::Ua => {
                reveal_strlit("Хто отримував або ввозив це?");
                assert(!is_ws("Хто отримував або ввозив це?"@[0]));
            },
            Lang::De => {
                reveal_strlit("Wer hat es erhalten oder importiert?");
                assert(!is_ws("Wer hat es erhalten oder importiert?"@[0]));
            },
            Lang::Es => {
                reveal_strlit("¿Quién lo recibió o importó?");
                assert(!is_ws("¿Quién lo recibió o importó?"@[0]));
            },
            Lang::Fr => {
                reveal_strlit("Qui l'a reçu ou importé ?");
                assert(!is_ws("Qui l'a reçu ou importé ?"@[0]));
            },
            Lang::Pl => {
                reveal_strlit("Kto to odbierał lub importował?");
                assert(!is_ws("Kto to odbierał lub importował?"@[0]));
            },
            Lang::Pt => {
                reveal_strlit("Quem recebeu ou importou isso?");
                assert(!is_ws("Quem recebeu ou importou isso?"@[0]));
            },
            Lang::Ro => {
                reveal_strlit("Cine a primit sau importat?");
                assert(!is_ws("Cine a primit sau importat?"@[0]));
            },
            Lang::Hu => {
                reveal_strlit("Ki kapta vagy importálta?");
                assert(!is_ws("Ki kapta vagy importálta?"@[0]));
            },
            Lang::Bg => {
                reveal_strlit("Кой го е получавал или внасял?");
                assert(!is_ws("Кой го е получавал или внасял?"@[0]));
            },
            Lang::Zh => {
                reveal_strlit("谁接收或进口了它？");
                assert(!is_ws("谁接收或进口了它？"@[0]));
            },
        },
        GuidedQuestionKind::ProductAllCompanies => match lang {
            Lang::En => {
                reveal_strlit("Show every company and identifier");
                assert(!is_ws("Show every company and identifier"@[0]));
            },
            Lang::Ua => {
                reveal_strlit("Показати всі компанії та ЄДРПОУ");
                assert(!is_ws("Показати всі компанії та ЄДРПОУ"@[0]));
            },
            Lang::De => {
                reveal_strlit("Alle Firmen und EDRPOU anzeigen");
                assert(!is_ws("Alle Firmen und EDRPOU anzeigen"@[0]));
            },
            Lang::Es => {
                reveal_strlit("Mostrar todas las empresas y EDRPOU");
                assert(!is_ws("Mostrar todas las empresas y EDRPOU"@[0]));
            },
            Lang::Fr => {
                reveal_strlit("Afficher toutes les entreprises et EDRPOU");
                assert(!is_ws("Afficher toutes les entreprises et EDRPOU"@[0]));
            },
            Lang::Pl => {
                reveal_strlit("Pokaż wszystkie firmy i EDRPOU");
                assert(!is_ws("Pokaż wszystkie firmy i EDRPOU"@[0]));
            },
            Lang::Pt => {
                reveal_strlit("Mostrar todas as empresas e EDRPOU");
                assert(!is_ws("Mostrar todas as empresas e EDRPOU"@[0]));
            },
            Lang::Ro => {
                reveal_strlit("Arată toate companiile și EDRPOU");
                assert(!is_ws("Arată toate companiile și EDRPOU"@[0]));
            },
            Lang::Hu => {
                reveal_strlit("Összes cég és EDRPOU megjelenítése");
                assert(!is_ws("Összes cég és EDRPOU megjelenítése"@[0]));
            },
            Lang::Bg => {
                reveal_strlit("Покажи всички фирми и ЕДРПОУ");
                assert(!is_ws("Покажи всички фирми и ЕДРПОУ"@[0]));
            },
            Lang::Zh => {
                reveal_strlit("显示所有公司和EDRPOU");
                assert(!is_ws("显示所有公司和EDRPOU"@[0]));
            },
        },
        GuidedQuestionKind::ProductGoods => match lang {
            Lang::En => {
                reveal_strlit("Which product codes and brands are inside?");
                assert(!is_ws("Which product codes and brands are inside?"@[0]));
            },
            Lang::Ua => {
                reveal_strlit("Які коди товару та бренди всередині?");
                assert(!is_ws("Які коди товару та бренди всередині?"@[0]));
            },
            Lang::De => {
                reveal_strlit("Welche Warencodes und Marken stecken darin?");
                assert(!is_ws("Welche Warencodes und Marken stecken darin?"@[0]));
            },
            Lang::Es => {
                reveal_strlit("¿Qué códigos y marcas contiene?");
                assert(!is_ws("¿Qué códigos y marcas contiene?"@[0]));
            },
            Lang::Fr => {
                reveal_strlit("Quels codes produit et marques contient-il ?");
                assert(!is_ws("Quels codes produit et marques contient-il ?"@[0]));
            },
            Lang::Pl => {
                reveal_strlit("Jakie kody towaru i marki są w środku?");
                assert(!is_ws("Jakie kody towaru i marki są w środku?"@[0]));
            },
            Lang::Pt => {
                reveal_strlit("Quais códigos de produto e marcas aparecem?");
                assert(!is_ws("Quais códigos de produto e marcas aparecem?"@[0]));
            },
            Lang::Ro => {
                reveal_strlit("Ce coduri de produs și mărci conține?");
                assert(!is_ws("Ce coduri de produs și mărci conține?"@[0]));
            },
            Lang::Hu => {
                reveal_strlit("Milyen termékkódok és márkák vannak benne?");
                assert(!is_ws("Milyen termékkódok és márkák vannak benne?"@[0]));
            },
            Lang::Bg => {
                reveal_strlit("Какви кодове и марки има вътре?");
                assert(!is_ws("Какви кодове и марки има вътре?"@[0]));
            },
            Lang::Zh => {
                reveal_strlit("包含哪些商品编码和品牌？");
                assert(!is_ws("包含哪些商品编码和品牌？"@[0]));
            },
        },
        GuidedQuestionKind::ProductCountries => match lang {
            Lang::En => {
                reveal_strlit("From which countries and routes?");
                assert(!is_ws("From which countries and routes?"@[0]));
            },
            Lang::Ua => {
                reveal_strlit("З яких країн і маршрутів?");
                assert(!is_ws("З яких країн і маршрутів?"@[0]));
            },
            Lang::De => {
                reveal_strlit("Aus welchen Ländern und Routen?");
                assert(!is_ws("Aus welchen Ländern und Routen?"@[0]));
            },
            Lang::Es => {
                reveal_strlit("¿Desde qué países y rutas?");
                assert(!is_ws("¿Desde qué países y rutas?"@[0]));
            },
            Lang::Fr => {
                reveal_strlit("Depuis quels pays et routes ?");
                assert(!is_ws("Depuis quels pays et routes ?"@[0]));
            },
            Lang::Pl => {
                reveal_strlit("Z jakich krajów i tras?");
                assert(!is_ws("Z jakich krajów i tras?"@[0]));
            },
            Lang::Pt => {
                reveal_strlit("De quais países e rotas?");
                assert(!is_ws("De quais países e rotas?"@[0]));
            },
            Lang::Ro => {
                reveal_strlit("Din ce țări și rute?");
                assert(!is_ws("Din ce țări și rute?"@[0]));
            },
            Lang::Hu => {
                reveal_strlit("Mely országokból és útvonalakon?");
                assert(!is_ws("Mely országokból és útvonalakon?"@[0]));
            },
            Lang::Bg => {
                reveal_strlit("От кои държави и маршрути?");
                assert(!is_ws("От кои държави и маршрути?"@[0]));
            },
            Lang::Zh => {
                reveal_strlit("来自哪些国家和路线？");
                assert(!is_ws("来自哪些国家和路线？"@[0]));
            },
        },
        GuidedQuestionKind::ProductPrices => match lang {
            Lang::En => {
                reveal_strlit("What is the price and $/kg picture?");
                assert(!is_ws("What is the price and $/kg picture?"@[0]));
            },
            Lang::Ua => {
                reveal_strlit("Яка ціна та картина $/кг?");
                assert(!is_ws("Яка ціна та картина $/кг?"@[0]));
            },
            Lang::De => {
                reveal_strlit("Wie sieht Preis und $/kg aus?");
                assert(!is_ws("Wie sieht Preis und $/kg aus?"@[0]));
            },
            Lang::Es => {
                reveal_strlit("¿Cómo se ven precio y $/kg?");
                assert(!is_ws("¿Cómo se ven precio y $/kg?"@[0]));
            },
            Lang::Fr => {
                reveal_strlit("Quelle est la situation prix et $/kg ?");
                assert(!is_ws("Quelle est la situation prix et $/kg ?"@[0]));
            },
            Lang::Pl => {
                reveal_strlit("Jak wygląda cena i $/kg?");
                assert(!is_ws("Jak wygląda cena i $/kg?"@[0]));
            },
            Lang::Pt => {
                reveal_strlit("Como estão preço e $/kg?");
                assert(!is_ws("Como estão preço e $/kg?"@[0]));
            },
            Lang::Ro => {
                reveal_strlit("Cum arată prețul și $/kg?");
                assert(!is_ws("Cum arată prețul și $/kg?"@[0]));
            },
            Lang::Hu => {
                reveal_strlit("Milyen az ár és $/kg képe?");
                assert(!is_ws("Milyen az ár és $/kg képe?"@[0]));
            },
            Lang::Bg => {
                reveal_strlit("Как изглеждат цена и $/кг?");
                assert(!is_ws("Как изглеждат цена и $/кг?"@[0]));
            },
            Lang::Zh => {
                reveal_strlit("价格和$/公斤情况如何？");
                assert(!is_ws("价格和$/公斤情况如何？"@[0]));
            },
        },
        GuidedQuestionKind::ProductTimeline => match lang {
            Lang::En => {
                reveal_strlit("How did value and weight change by month?");
                assert(!is_ws("How did value and weight change by month?"@[0]));
            },
            Lang::Ua => {
                reveal_strlit("Як змінювались вартість і вага по місяцях?");
                assert(!is_ws("Як змінювались вартість і вага по місяцях?"@[0]));
            },
            Lang::De => {
                reveal_strlit("Wie änderten sich Wert und Gewicht je Monat?");
                assert(!is_ws("Wie änderten sich Wert und Gewicht je Monat?"@[0]));
            },
            Lang::Es => {
                reveal_strlit("¿Cómo cambiaron valor y peso por mes?");
                assert(!is_ws("¿Cómo cambiaron valor y peso por mes?"@[0]));
            },
            Lang::Fr => {
                reveal_strlit("Comment valeur et poids ont-ils changé par mois ?");
                assert(!is_ws("Comment valeur et poids ont-ils changé par mois ?"@[0]));
            },
            Lang::Pl => {
                reveal_strlit("Jak zmieniały się wartość i waga miesięcznie?");
                assert(!is_ws("Jak zmieniały się wartość i waga miesięcznie?"@[0]));
            },
            Lang::Pt => {
                reveal_strlit("Como valor e peso mudaram por mês?");
                assert(!is_ws("Como valor e peso mudaram por mês?"@[0]));
            },
            Lang::Ro => {
                reveal_strlit("Cum s-au schimbat valoarea și greutatea lunar?");
                assert(!is_ws("Cum s-au schimbat valoarea și greutatea lunar?"@[0]));
            },
            Lang::Hu => {
                reveal_strlit("Hogyan változott az érték és a súly havonta?");
                assert(!is_ws("Hogyan változott az érték és a súly havonta?"@[0]));
            },
            Lang::Bg => {
                reveal_strlit("Как се променяха стойност и тегло по месеци?");
                assert(!is_ws("Как се променяха стойност и тегло по месеци?"@[0]));
            },
            Lang::Zh => {
                reveal_strlit("金额和重量按月如何变化？");
                assert(!is_ws("金额和重量按月如何变化？"@[0]));
            },
        },
        GuidedQuestionKind::ProductCompaniesByMonth => match lang {
            Lang::En => {
                reveal_strlit("Compare companies by month");
                assert(!is_ws("Compare companies by month"@[0]));
            },
            Lang::Ua => {
                reveal_strlit("Порівняти компанії по місяцях");
                assert(!is_ws("Порівняти компанії по місяцях"@[0]));
            },
            Lang::De => {
                reveal_strlit("Firmen nach Monaten vergleichen");
                assert(!is_ws("Firmen nach Monaten vergleichen"@[0]));
            },
            Lang::Es => {
                reveal_strlit("Comparar empresas por mes");
                assert(!is_ws("Comparar empresas por mes"@[0]));
            },
            Lang::Fr => {
                reveal_strlit("Comparer les entreprises par mois");
                assert(!is_ws("Comparer les entreprises par mois"@[0]));
            },
            Lang::Pl => {
                reveal_strlit("Porównaj firmy według miesięcy");
                assert(!is_ws("Porównaj firmy według miesięcy"@[0]));
            },
            Lang::Pt => {
                reveal_strlit("Comparar empresas por mês");
                assert(!is_ws("Comparar empresas por mês"@[0]));
            },
            Lang::Ro => {
                reveal_strlit("Compară companiile pe luni");
                assert(!is_ws("Compară companiile pe luni"@[0]));
            },
            Lang::Hu => {
                reveal_strlit("Cégek összehasonlítása hónaponként");
                assert(!is_ws("Cégek összehasonlítása hónaponként"@[0]));
            },
            Lang::Bg => {
                reveal_strlit("Сравни фирмите по месеци");
                assert(!is_ws("Сравни фирмите по месеци"@[0]));
            },
            Lang::Zh => {
                reveal_strlit("按月比较公司");
                assert(!is_ws("按月比较公司"@[0]));
            },
        },
        GuidedQuestionKind::CompanyProfile => match lang {
            Lang::En => {
                reveal_strlit("Open the full company dossier");
                assert(!is_ws("Open the full company dossier"@[0]));
            },
            Lang::Ua => {
                reveal_strlit("Відкрити повне досьє компанії");
                assert(!is_ws("Відкрити повне досьє компанії"@[0]));
            },
            Lang::De => {
                reveal_strlit("Vollständiges Firmendossier öffnen");
                assert(!is_ws("Vollständiges Firmendossier öffnen"@[0]));
            },
            Lang::Es => {
                reveal_strlit("Abrir el expediente completo de la empresa");
                assert(!is_ws("Abrir el expediente completo de la empresa"@[0]));
            },
            Lang::Fr => {
                reveal_strlit("Ouvrir le dossier complet de l'entreprise");
                assert(!is_ws("Ouvrir le dossier complet de l'entreprise"@[0]));
            },
            Lang::Pl => {
                reveal_strlit("Otwórz pełny profil firmy");
                assert(!is_ws("Otwórz pełny profil firmy"@[0]));
            },
            Lang::Pt => {
                reveal_strlit("Abrir o dossiê completo da empresa");
                assert(!is_ws("Abrir o dossiê completo da empresa"@[0]));
            },
            Lang::Ro => {
                reveal_strlit("Deschide dosarul complet al companiei");
                assert(!is_ws("Deschide dosarul complet al companiei"@[0]));
            },
            Lang::Hu => {
                reveal_strlit("Teljes cégdosszié megnyitása");
                assert(!is_ws("Teljes cégdosszié megnyitása"@[0]));
            },
            Lang::Bg => {
                reveal_strlit("Отвори пълното досие на фирмата");
                assert(!is_ws("Отвори пълното досие на фирмата"@[0]));
            },
            Lang::Zh => {
                reveal_strlit("打开完整公司档案");
                assert(!is_ws("打开完整公司档案"@[0]));
            },
        },
        GuidedQuestionKind::CompanyGoods => match lang {
            Lang::En => {
                reveal_strlit("What did this company move?");
                assert(!is_ws("What did this company move?"@[0]));
            },
            Lang::Ua => {
                reveal_strlit("Що переміщувала ця компанія?");
                assert(!is_ws("Що переміщувала ця компанія?"@[0]));
            },
            Lang::De => {
                reveal_strlit("Welche Waren bewegte diese Firma?");
                assert(!is_ws("Welche Waren bewegte diese Firma?"@[0]));
            },
            Lang::Es => {
                reveal_strlit("¿Qué movió esta empresa?");
                assert(!is_ws("¿Qué movió esta empresa?"@[0]));
            },
            Lang::Fr => {
                reveal_strlit("Quelles marchandises cette entreprise a-t-elle traitées ?");
                assert(!is_ws("Quelles marchandises cette entreprise a-t-elle traitées ?"@[0]));
            },
            Lang::Pl => {
                reveal_strlit("Co przewoziła ta firma?");
                assert(!is_ws("Co przewoziła ta firma?"@[0]));
            },
            Lang::Pt => {
                reveal_strlit("O que esta empresa movimentou?");
                assert(!is_ws("O que esta empresa movimentou?"@[0]));
            },
            Lang::Ro => {
                reveal_strlit("Ce a transportat această companie?");
                assert(!is_ws("Ce a transportat această companie?"@[0]));
            },
            Lang::Hu => {
                reveal_strlit("Mit mozgatott ez a cég?");
                assert(!is_ws("Mit mozgatott ez a cég?"@[0]));
            },
            Lang::Bg => {
                reveal_strlit("Какво е превозвала тази фирма?");
                assert(!is_ws("Какво е превозвала тази фирма?"@[0]));
            },
            Lang::Zh => {
                reveal_strlit("这家公司运输了什么？");
                assert(!is_ws("这家公司运输了什么？"@[0]));
            },
        },
        GuidedQuestionKind::CompanySuppliers => match lang {
            Lang::En => {
                reveal_strlit("Who supplied this company?");
                assert(!is_ws("Who supplied this company?"@[0]));
            },
            Lang::Ua => {
                reveal_strlit("Хто постачав цій компанії?");
                assert(!is_ws("Хто постачав цій компанії?"@[0]));
            },
            Lang::De => {
                reveal_strlit("Wer belieferte diese Firma?");
                assert(!is_ws("Wer belieferte diese Firma?"@[0]));
            },
            Lang::Es => {
                reveal_strlit("¿Quién abasteció a esta empresa?");
                assert(!is_ws("¿Quién abasteció a esta empresa?"@[0]));
            },
            Lang::Fr => {
                reveal_strlit("Qui a fourni cette entreprise ?");
                assert(!is_ws("Qui a fourni cette entreprise ?"@[0]));
            },
            Lang::Pl => {
                reveal_strlit("Kto dostarczał tej firmie?");
                assert(!is_ws("Kto dostarczał tej firmie?"@[0]));
            },
            Lang::Pt => {
                reveal_strlit("Quem forneceu para esta empresa?");
                assert(!is_ws("Quem forneceu para esta empresa?"@[0]));
            },
            Lang::Ro => {
                reveal_strlit("Cine a furnizat această companie?");
                assert(!is_ws("Cine a furnizat această companie?"@[0]));
            },
            Lang::Hu => {
                reveal_strlit("Ki szállított ennek a cégnek?");
                assert(!is_ws("Ki szállított ennek a cégnek?"@[0]));
            },
            Lang::Bg => {
                reveal_strlit("Кой е доставял на тази фирма?");
                assert(!is_ws("Кой е доставял на тази фирма?"@[0]));
            },
            Lang::Zh => {
                reveal_strlit("谁给这家公司供货？");
                assert(!is_ws("谁给这家公司供货？"@[0]));
            },
        },
        GuidedQuestionKind::CompanyCountries => match lang {
            Lang::En => {
                reveal_strlit("Which countries did it work with?");
                assert(!is_ws("Which countries did it work with?"@[0]));
            },
            Lang::Ua => {
                reveal_strlit("З якими країнами вона працювала?");
                assert(!is_ws("З якими країнами вона працювала?"@[0]));
            },
            Lang::De => {
                reveal_strlit("Mit welchen Ländern arbeitete sie?");
                assert(!is_ws("Mit welchen Ländern arbeitete sie?"@[0]));
            },
            Lang::Es => {
                reveal_strlit("¿Con qué países trabajó?");
                assert(!is_ws("¿Con qué países trabajó?"@[0]));
            },
            Lang::Fr => {
                reveal_strlit("Avec quels pays a-t-elle travaillé ?");
                assert(!is_ws("Avec quels pays a-t-elle travaillé ?"@[0]));
            },
            Lang::Pl => {
                reveal_strlit("Z jakimi krajami współpracowała?");
                assert(!is_ws("Z jakimi krajami współpracowała?"@[0]));
            },
            Lang::Pt => {
                reveal_strlit("Com quais países trabalhou?");
                assert(!is_ws("Com quais países trabalhou?"@[0]));
            },
            Lang::Ro => {
                reveal_strlit("Cu ce țări a lucrat?");
                assert(!is_ws("Cu ce țări a lucrat?"@[0]));
            },
            Lang::Hu => {
                reveal_strlit("Mely országokkal dolgozott?");
                assert(!is_ws("Mely országokkal dolgozott?"@[0]));
            },
            Lang::Bg => {
                reveal_strlit("С кои държави е работила?");
                assert(!is_ws("С кои държави е работила?"@[0]));
            },
            Lang::Zh => {
                reveal_strlit("它与哪些国家往来？");
                assert(!is_ws("它与哪些国家往来？"@[0]));
            },
        },
        GuidedQuestionKind::CompanyTimeline => match lang {
            Lang::En => {
                reveal_strlit("How did this company change by month?");
                assert(!is_ws("How did this company change by month?"@[0]));
            },
            Lang::Ua => {
                reveal_strlit("Як ця компанія змінювалась по місяцях?");
                assert(!is_ws("Як ця компанія змінювалась по місяцях?"@[0]));
            },
            Lang::De => {
                reveal_strlit("Wie veränderte sich diese Firma je Monat?");
                assert(!is_ws("Wie veränderte sich diese Firma je Monat?"@[0]));
            },
            Lang::Es => {
                reveal_strlit("¿Cómo cambió esta empresa por mes?");
                assert(!is_ws("¿Cómo cambió esta empresa por mes?"@[0]));
            },
            Lang::Fr => {
                reveal_strlit("Comment cette entreprise a-t-elle évolué par mois ?");
                assert(!is_ws("Comment cette entreprise a-t-elle évolué par mois ?"@[0]));
            },
            Lang::Pl => {
                reveal_strlit("Jak firma zmieniała się miesięcznie?");
                assert(!is_ws("Jak firma zmieniała się miesięcznie?"@[0]));
            },
            Lang::Pt => {
                reveal_strlit("Como esta empresa mudou por mês?");
                assert(!is_ws("Como esta empresa mudou por mês?"@[0]));
            },
            Lang::Ro => {
                reveal_strlit("Cum s-a schimbat compania pe luni?");
                assert(!is_ws("Cum s-a schimbat compania pe luni?"@[0]));
            },
            Lang::Hu => {
                reveal_strlit("Hogyan változott a cég havonta?");
                assert(!is_ws("Hogyan változott a cég havonta?"@[0]));
            },
            Lang::Bg => {
                reveal_strlit("Как се променяше фирмата по месеци?");
                assert(!is_ws("Как се променяше фирмата по месеци?"@[0]));
            },
            Lang::Zh => {
                reveal_strlit("这家公司按月如何变化？");
                assert(!is_ws("这家公司按月如何变化？"@[0]));
            },
        },
        GuidedQuestionKind::CompanyGoodsByMonth => match lang {
            Lang::En => {
                reveal_strlit("Compare product codes by month");
                assert(!is_ws("Compare product codes by month"@[0]));
            },
            Lang::Ua => {
                reveal_strlit("Порівняти коди товару по місяцях");
                assert(!is_ws("Порівняти коди товару по місяцях"@[0]));
            },
            Lang::De => {
                reveal_strlit("Warencodes nach Monaten vergleichen");
                assert(!is_ws("Warencodes nach Monaten vergleichen"@[0]));
            },
            Lang::Es => {
                reveal_strlit("Comparar códigos de producto por mes");
                assert(!is_ws("Comparar códigos de producto por mes"@[0]));
            },
            Lang::Fr => {
                reveal_strlit("Comparer les codes produit par mois");
                assert(!is_ws("Comparer les codes produit par mois"@[0]));
            },
            Lang::Pl => {
                reveal_strlit("Porównaj kody towarów według miesięcy");
                assert(!is_ws("Porównaj kody towarów według miesięcy"@[0]));
            },
            Lang::Pt => {
                reveal_strlit("Comparar códigos de produto por mês");
                assert(!is_ws("Comparar códigos de produto por mês"@[0]));
            },
            Lang::Ro => {
                reveal_strlit("Compară codurile de produs pe luni");
                assert(!is_ws("Compară codurile de produs pe luni"@[0]));
            },
            Lang::Hu => {
                reveal_strlit("Termékkódok összehasonlítása hónaponként");
                assert(!is_ws("Termékkódok összehasonlítása hónaponként"@[0]));
            },
            Lang::Bg => {
                reveal_strlit("Сравни кодовете по месеци");
                assert(!is_ws("Сравни кодовете по месеци"@[0]));
            },
            Lang::Zh => {
                reveal_strlit("按月比较商品编码");
                assert(!is_ws("按月比较商品编码"@[0]));
            },
        },
        GuidedQuestionKind::MarketCompanies => match lang {
            Lang::En => {
                reveal_strlit("Who are the biggest companies here?");
                assert(!is_ws("Who are the biggest companies here?"@[0]));
            },
            Lang::Ua => {
                reveal_strlit("Хто найбільші компанії у вибірці?");
                assert(!is_ws("Хто найбільші компанії у вибірці?"@[0]));
            },
            Lang::De => {
                reveal_strlit("Wer sind hier die größten Firmen?");
                assert(!is_ws("Wer sind hier die größten Firmen?"@[0]));
            },
            Lang::Es => {
                reveal_strlit("¿Cuáles son las empresas más grandes aquí?");
                assert(!is_ws("¿Cuáles son las empresas más grandes aquí?"@[0]));
            },
            Lang::Fr => {
                reveal_strlit("Quelles sont les plus grandes entreprises ici ?");
                assert(!is_ws("Quelles sont les plus grandes entreprises ici ?"@[0]));
            },
            Lang::Pl => {
                reveal_strlit("Które firmy są tu największe?");
                assert(!is_ws("Które firmy są tu największe?"@[0]));
            },
            Lang::Pt => {
                reveal_strlit("Quais são as maiores empresas aqui?");
                assert(!is_ws("Quais são as maiores empresas aqui?"@[0]));
            },
            Lang::Ro => {
                reveal_strlit("Care sunt cele mai mari companii aici?");
                assert(!is_ws("Care sunt cele mai mari companii aici?"@[0]));
            },
            Lang::Hu => {
                reveal_strlit("Melyek itt a legnagyobb cégek?");
                assert(!is_ws("Melyek itt a legnagyobb cégek?"@[0]));
            },
            Lang::Bg => {
                reveal_strlit("Кои са най-големите фирми тук?");
                assert(!is_ws("Кои са най-големите фирми тук?"@[0]));
            },
            Lang::Zh => {
                reveal_strlit("这里最大的公司是谁？");
                assert(!is_ws("这里最大的公司是谁？"@[0]));
            },
        },
        GuidedQuestionKind::MarketGoods => match lang {
            Lang::En => {
                reveal_strlit("Which goods dominate this slice?");
                assert(!is_ws("Which goods dominate this slice?"@[0]));
            },
            Lang::Ua => {
                reveal_strlit("Які товари домінують у вибірці?");
                assert(!is_ws("Які товари домінують у вибірці?"@[0]));
            },
            Lang::De => {
                reveal_strlit("Welche Waren dominieren diesen Ausschnitt?");
                assert(!is_ws("Welche Waren dominieren diesen Ausschnitt?"@[0]));
            },
            Lang::Es => {
                reveal_strlit("¿Qué mercancías dominan esta selección?");
                assert(!is_ws("¿Qué mercancías dominan esta selección?"@[0]));
            },
            Lang::Fr => {
                reveal_strlit("Quelles marchandises dominent ce périmètre ?");
                assert(!is_ws("Quelles marchandises dominent ce périmètre ?"@[0]));
            },
            Lang::Pl => {
                reveal_strlit("Jakie towary dominują w tym zakresie?");
                assert(!is_ws("Jakie towary dominują w tym zakresie?"@[0]));
            },
            Lang::Pt => {
                reveal_strlit("Quais mercadorias dominam este recorte?");
                assert(!is_ws("Quais mercadorias dominam este recorte?"@[0]));
            },
            Lang::Ro => {
                reveal_strlit("Ce mărfuri domină această selecție?");
                assert(!is_ws("Ce mărfuri domină această selecție?"@[0]));
            },
            Lang::Hu => {
                reveal_strlit("Mely áruk dominálnak ebben a szűrésben?");
                assert(!is_ws("Mely áruk dominálnak ebben a szűrésben?"@[0]));
            },
            Lang::Bg => {
                reveal_strlit("Кои стоки доминират в тази извадка?");
                assert(!is_ws("Кои стоки доминират в тази извадка?"@[0]));
            },
            Lang::Zh => {
                reveal_strlit("这个范围内哪些商品占主导？");
                assert(!is_ws("这个范围内哪些商品占主导？"@[0]));
            },
        },
        GuidedQuestionKind::MarketCountries => match lang {
            Lang::En => {
                reveal_strlit("Which countries and routes dominate?");
                assert(!is_ws("Which countries and routes dominate?"@[0]));
            },
            Lang::Ua => {
                reveal_strlit("Які країни та маршрути домінують?");
                assert(!is_ws("Які країни та маршрути домінують?"@[0]));
            },
            Lang::De => {
                reveal_strlit("Welche Länder und Routen dominieren?");
                assert(!is_ws("Welche Länder und Routen dominieren?"@[0]));
            },
            Lang::Es => {
                reveal_strlit("¿Qué países y rutas dominan?");
                assert(!is_ws("¿Qué países y rutas dominan?"@[0]));
            },
            Lang::Fr => {
                reveal_strlit("Quels pays et routes dominent ?");
                assert(!is_ws("Quels pays et routes dominent ?"@[0]));
            },
            Lang::Pl => {
                reveal_strlit("Jakie kraje i trasy dominują?");
                assert(!is_ws("Jakie kraje i trasy dominują?"@[0]));
            },
            Lang::Pt => {
                reveal_strlit("Quais países e rotas dominam?");
                assert(!is_ws("Quais países e rotas dominam?"@[0]));
            },
            Lang::Ro => {
                reveal_strlit("Ce țări și rute domină?");
                assert(!is_ws("Ce țări și rute domină?"@[0]));
            },
            Lang::Hu => {
                reveal_strlit("Mely országok és útvonalak dominálnak?");
                assert(!is_ws("Mely országok és útvonalak dominálnak?"@[0]));
            },
            Lang::Bg => {
                reveal_strlit("Кои държави и маршрути доминират?");
                assert(!is_ws("Кои държави и маршрути доминират?"@[0]));
            },
            Lang::Zh => {
                reveal_strlit("哪些国家和路线占主导？");
                assert(!is_ws("哪些国家和路线占主导？"@[0]));
            },
        },
        GuidedQuestionKind::MarketPrices => match lang {
            Lang::En => {
                reveal_strlit("Are prices normal in this slice?");
                assert(!is_ws("Are prices normal in this slice?"@[0]));
            },
            Lang::Ua => {
                reveal_strlit("Чи нормальні ціни в цій вибірці?");
                assert(!is_ws("Чи нормальні ціни в цій вибірці?"@[0]));
            },
            Lang::De => {
                reveal_strlit("Sind die Preise in diesem Ausschnitt normal?");
                assert(!is_ws("Sind die Preise in diesem Ausschnitt normal?"@[0]));
            },
            Lang::Es => {
                reveal_strlit("¿Son normales los precios en esta selección?");
                assert(!is_ws("¿Son normales los precios en esta selección?"@[0]));
            },
            Lang::Fr => {
                reveal_strlit("Les prix sont-ils normaux dans ce périmètre ?");
                assert(!is_ws("Les prix sont-ils normaux dans ce périmètre ?"@[0]));
            },
            Lang::Pl => {
                reveal_strlit("Czy ceny w tym zakresie są normalne?");
                assert(!is_ws("Czy ceny w tym zakresie są normalne?"@[0]));
            },
            Lang::Pt => {
                reveal_strlit("Os preços são normais neste recorte?");
                assert(!is_ws("Os preços são normais neste recorte?"@[0]));
            },
            Lang::Ro => {
                reveal_strlit("Sunt prețurile normale în această selecție?");
                assert(!is_ws("Sunt prețurile normale în această selecție?"@[0]));
            },
            Lang::Hu => {
                reveal_strlit("Normálisak az árak ebben a szűrésben?");
                assert(!is_ws("Normálisak az árak ebben a szűrésben?"@[0]));
            },
            Lang::Bg => {
                reveal_strlit("Нормални ли са цените в тази извадка?");
                assert(!is_ws("Нормални ли са цените в тази извадка?"@[0]));
            },
            Lang::Zh => {
                reveal_strlit("这个范围内价格是否正常？");
                assert(!is_ws("这个范围内价格是否正常？"@[0]));
            },
        },
    }
}

// ---------- questions for the current search ----------

/// An ASCII digit.
pub open spec fn ascii_digit(c: char) -> bool {
    '0' <= c <= '9'
}

/// The company identifier the search names exactly: the trimmed EDRPOU
/// filter when it is set, else the trimmed search text when it is eight
/// ASCII digits.
pub open spec fn edrpou_candidate(text: Seq<char>, f: Seq<Seq<char>>) -> Option<Seq<char>> {
    if !blank(f[6]) {
        Some(trim(f[6]))
    } else if trim(text).len() == 8 && forall|i: int|
        0 <= i < 8 ==> ascii_digit(#[trigger] trim(text)[i]) {
        Some(trim(text))
    } else {
        None
    }
}

/// The company identifier the search names exactly, if any.
pub fn exact_edrpou_candidate(text: &str, filters: &Filters) -> (r: Option<String>)
    ensures
        match r {
            Some(s) => edrpou_candidate(text@, filters@) == Some(s@),
            None => edrpou_candidate(text@, filters@) is None,
        },
{
    if !is_blank(filters.edrpou.as_str()) {
        return Some(trim_str(filters.edrpou.as_str()));
    }
    let t = trim_str(text);
    let cs = chars_of(t.as_str());
    if cs.len() != 8 {
        return None;
    }
    let mut i: usize = 0;
    while i < 8
        invariant
            i <= 8,
            cs@ == trim(text@),
            cs@.len() == 8,
            blank(filters@[6]),
            forall|k: int| 0 <= k < i ==> ascii_digit(#[trigger] cs@[k]),
        decreases 8 - i,
    {
        if !('0' <= cs[i] && cs[i] <= '9') {
            assert(!ascii_digit(trim(text@)[i as int]));
            return None;
        }
        i += 1;
    }
    Some(t)
}

/// The search is about a product: text, or a product code, trademark or
/// description filter.
pub open spec fn about_product(text: Seq<char>, f: Seq<Seq<char>>) -> bool {
    !blank(text) || !blank(f[1]) || !blank(f[2]) || !blank(f[3])
}

/// The search is about a company: an exact identifier, or a recipient or
/// sender filter.
pub open spec fn about_company(text: Seq<char>, f: Seq<Seq<char>>) -> bool {
    edrpou_candidate(text, f) is Some || !blank(f[5]) || !blank(f[4])
}

/// The search narrows the market: a year or a country filter.
pub open spec fn about_market(f: Seq<Seq<char>>) -> bool {
    !blank(f[0]) || !blank(f[9]) || !blank(f[8]) || !blank(f[7])
}

pub open spec fn product_questions() -> Seq<(GuidedQuestionSection, GuidedQuestionKind)> {
    seq![
        (GuidedQuestionSection::Product, GuidedQuestionKind::ProductCompanies),
        (GuidedQuestionSection::Product, GuidedQuestionKind::ProductAllCompanies),
        (GuidedQuestionSection::Product, GuidedQuestionKind::ProductGoods),
        (GuidedQuestionSection::Product, GuidedQuestionKind::ProductCountries),
        (GuidedQuestionSection::Product, GuidedQuestionKind::ProductPrices),
        (GuidedQuestionSection::Product, GuidedQuestionKind::ProductTimeline),
        (GuidedQuestionSection::Product, GuidedQuestionKind::ProductCompaniesByMonth),
    ]
}

pub open spec fn company_questions() -> Seq<(GuidedQuestionSection, GuidedQuestionKind)> {
    seq![
        (GuidedQuestionSection::Company, GuidedQuestionKind::CompanyGoods),
        (GuidedQuestionSection::Company, GuidedQuestionKind::CompanySuppliers),
        (GuidedQuestionSection::Company, GuidedQuestionKind::CompanyCountries),
        (GuidedQuestionSection::Company, GuidedQuestionKind::CompanyTimeline),
        (GuidedQuestionSection::Company, GuidedQuestionKind::CompanyGoodsByMonth),
    ]
}

pub open spec fn market_questions() -> Seq<(GuidedQuestionSection, GuidedQuestionKind)> {
    seq![
        (GuidedQuestionSection::Market, GuidedQuestionKind::MarketCompanies),
        (GuidedQuestionSection::Market, GuidedQuestionKind::MarketGoods),
        (GuidedQuestionSection::Market, GuidedQuestionKind::MarketCountries),
        (GuidedQuestionSection::Market, GuidedQuestionKind::MarketPrices),
    ]
}

/// The questions offered for a search: product questions when it is about
/// a product; company questions (led by the profile when the company is
/// named exactly) when it is about a company; market questions when it
/// narrows the market or is about neither.
pub open spec fn questions_for(text: Seq<char>, f: Seq<Seq<char>>) -> Seq<
    (GuidedQuestionSection, GuidedQuestionKind),
> {
    let product = if about_product(text, f) {
        product_questions()
    } else {
        Seq::empty()
    };
    let company = if about_company(text, f) {
        (if edrpou_candidate(text, f) is Some {
            seq![(GuidedQuestionSection::Company, GuidedQuestionKind::CompanyProfile)]
        } else {
            Seq::empty()
        }) + company_questions()
    } else {
        Seq::empty()
    };
    let market = if about_market(f) || (!about_product(text, f) && !about_company(text, f)) {
        market_questions()
    } else {
        Seq::empty()
    };
    product + company + market
}

fn push_all(
    out: &mut Vec<(GuidedQuestionSection, GuidedQuestionKind)>,
    items: &[(GuidedQuestionSection, GuidedQuestionKind)],
)
    ensures
        final(out)@ == old(out)@ + items@,
{
    let ghost start = out@;
    let mut i: usize = 0;
    while i < items.len()
        invariant
            i <= items@.len(),
            out@ == start + items@.take(i as int),
        decreases items.len() - i,
    {
        out.push(items[i]);
        i += 1;
        assert(out@ =~= start + items@.take(i as int));
    }
    assert(items@.take(i as int) =~= items@);
}

/// The guided questions offered for a search; never empty.
pub fn guided_questions_for(text: &str, filters: &Filters) -> (r: Vec<
    (GuidedQuestionSection, GuidedQuestionKind),
>)
    ensures
        r@ == questions_for(text@, filters@),
        r@.len() > 0,
{
    let mut out: Vec<(GuidedQuestionSection, GuidedQuestionKind)> = Vec::new();
    let candidate = exact_edrpou_candidate(text, filters);
    let has_text = !is_blank(text);
    let has_product = has_text || !is_blank(filters.product_code.as_str()) || !is_blank(
        filters.trademark.as_str(),
    ) || !is_blank(filters.description.as_str());
    let has_company = candidate.is_some() || !is_blank(filters.recipient.as_str()) || !is_blank(
        filters.sender.as_str(),
    );
    let has_market = !is_blank(filters.year.as_str()) || !is_blank(
        filters.origin_country.as_str(),
    ) || !is_blank(filters.dispatch_country.as_str()) || !is_blank(
        filters.trade_country.as_str(),
    );
    if has_product {
        let items = [
            (GuidedQuestionSection::Product, GuidedQuestionKind::ProductCompanies),
            (GuidedQuestionSection::Product, GuidedQuestionKind::ProductAllCompanies),
            (GuidedQuestionSection::Product, GuidedQuestionKind::ProductGoods),
            (GuidedQuestionSection::Product, GuidedQuestionKind::ProductCountries),
            (GuidedQuestionSection::Product, GuidedQuestionKind::ProductPrices),
            (GuidedQuestionSection::Product, GuidedQuestionKind::ProductTimeline),
            (GuidedQuestionSection::Product, GuidedQuestionKind::ProductCompaniesByMonth),
        ];
        assert(items@ =~= product_questions());
        push_all(&mut out, &items);
    }
    let ghost after_product = out@;
    if has_company {
        if candidate.is_some() {
            out.push((GuidedQuestionSection::Company, GuidedQuestionKind::CompanyProfile));
        }
        let items = [
            (GuidedQuestionSection::Company, GuidedQuestionKind::CompanyGoods),
            (GuidedQuestionSection::Company, GuidedQuestionKind::CompanySuppliers),
            (GuidedQuestionSection::Company, GuidedQuestionKind::CompanyCountries),
            (GuidedQuestionSection::Company, GuidedQuestionKind::CompanyTimeline),
            (GuidedQuestionSection::Company, GuidedQuestionKind::CompanyGoodsByMonth),
        ];
        assert(items@ =~= company_questions());
        push_all(&mut out, &items);
    }
    let ghost after_company = out@;
    if has_market || (!has_product && !has_company) {
        let items = [
            (GuidedQuestionSection::Market, GuidedQuestionKind::MarketCompanies),
            (GuidedQuestionSection::Market, GuidedQuestionKind::MarketGoods),
            (GuidedQuestionSection::Market, GuidedQuestionKind::MarketCountries),
            (GuidedQuestionSection::Market, GuidedQuestionKind::MarketPrices),
        ];
        assert(items@ =~= market_questions());
        push_all(&mut out, &items);
    }
    assert(out@ =~= questions_for(text@, filters@));
    out
}

// ---------- what a question opens ----------

/// Sub-tab of the analytics view.
#[derive(Clone, Copy, Debug, PartialEq, Eq, Structural)]
pub enum AnalyticsView {
    Overview,
    Companies,
    Products,
    Countries,
    Prices,
    Pivot,
    Report,
    Compare,
}

/// Number of analytics sub-tabs.
pub const ANALYTICS_VIEW_COUNT: usize = 8;

impl Default for AnalyticsView {
    fn default() -> (r: AnalyticsView)
        ensures
            r == AnalyticsView::Overview,
    {
        AnalyticsView::Overview
    }
}

/// The sub-tabs in display order.
pub open spec fn all_views() -> Seq<AnalyticsView> {
    seq![
        AnalyticsView::Overview,
        AnalyticsView::Companies,
        AnalyticsView::Products,
        AnalyticsView::Countries,
        AnalyticsView::Prices,
        AnalyticsView::Pivot,
        AnalyticsView::Report,
        AnalyticsView::Compare,
    ]
}

/// The section scope of a sub-tab; the overview, pivot, report and compare
/// tabs have none.
pub open spec fn view_scope(v: AnalyticsView) -> Option<AnalyticsScope> {
    match v {
        AnalyticsView::Companies => Some(AnalyticsScope::Companies),
        AnalyticsView::Products => Some(AnalyticsScope::Products),
        AnalyticsView::Countries => Some(AnalyticsScope::Countries),
        AnalyticsView::Prices => Some(AnalyticsScope::Prices),
        _ => None,
    }
}

/// The sub-tab showing a scope; no scope means the overview.
pub open spec fn view_of_scope(s: Option<AnalyticsScope>) -> AnalyticsView {
    match s {
        None => AnalyticsView::Overview,
        Some(AnalyticsScope::Companies) => AnalyticsView::Companies,
        Some(AnalyticsScope::Products) => AnalyticsView::Products,
        Some(AnalyticsScope::Countries) => AnalyticsView::Countries,
        Some(AnalyticsScope::Prices) => AnalyticsView::Prices,
    }
}

impl AnalyticsView {
    /// Every sub-tab, in display order.
    pub fn all() -> (r: Vec<AnalyticsView>)
        ensures
            r@ == all_views(),
    {
        let r = vec![
            AnalyticsView::Overview,
            AnalyticsView::Companies,
            AnalyticsView::Products,
            AnalyticsView::Countries,
            AnalyticsView::Prices,
            AnalyticsView::Pivot,
            AnalyticsView::Report,
            AnalyticsView::Compare,
        ];
        assert(r@ =~= all_views());
        r
    }

    /// Position of the sub-tab in display order.
    pub fn index(self) -> (r: usize)
        ensures
            r < ANALYTICS_VIEW_COUNT,
            all_views()[r as int] == self,
    {
        match self {
            AnalyticsView::Overview => 0,
            AnalyticsView::Companies => 1,
            AnalyticsView::Products => 2,
            AnalyticsView::Countries => 3,
            AnalyticsView::Prices => 4,
            AnalyticsView::Pivot => 5,
            AnalyticsView::Report => 6,
            AnalyticsView::Compare => 7,
        }
    }

    /// Section scope for the standard sub-tabs.
    pub fn scope(self) -> (r: Option<AnalyticsScope>)
        ensures
            r == view_scope(self),
    {
        match self {
            AnalyticsView::Companies => Some(AnalyticsScope::Companies),
            AnalyticsView::Products => Some(AnalyticsScope::Products),
            AnalyticsView::Countries => Some(AnalyticsScope::Countries),
            AnalyticsView::Prices => Some(AnalyticsScope::Prices),
            AnalyticsView::Overview | AnalyticsView::Pivot | AnalyticsView::Report
            | AnalyticsView::Compare => None,
        }
    }

    pub fn from_scope(scope: Option<AnalyticsScope>) -> (r: AnalyticsView)
        ensures
            r == view_of_scope(scope),
    {
        match scope {
            None => AnalyticsView::Overview,
            Some(AnalyticsScope::Companies) => AnalyticsView::Companies,
            Some(AnalyticsScope::Products) => AnalyticsView::Products,
            Some(AnalyticsScope::Countries) => AnalyticsView::Countries,
            Some(AnalyticsScope::Prices) => AnalyticsView::Prices,
        }
    }
}

/// A scope leads to a sub-tab whose scope it is, and a sub-tab with a scope
/// is the one its scope leads to.
pub proof fn lemma_view_scope_round_trip(v: AnalyticsView, s: Option<AnalyticsScope>)
    ensures
        view_scope(view_of_scope(s)) == s || s is None,
        view_scope(v) is Some ==> view_of_scope(view_scope(v)) == v,
        view_of_scope(None) == AnalyticsView::Overview,
{
}

/// What a guided question opens.
#[derive(Debug)]
pub enum GuidedQuestionAction {
    Analytics(AnalyticsView),
    Explore(AnalyticsSectionKind),
    Pivot(PivotDim, PivotDim, PivotMetric),
    /// The profile of the company with this identifier.
    Profile(String),
}

/// Abstract action.
pub enum ActionModel {
    Analytics(AnalyticsView),
    Explore(AnalyticsSectionKind),
    Pivot(PivotDim, PivotDim, PivotMetric),
    Profile(Seq<char>),
}

impl View for GuidedQuestionAction {
    type V = ActionModel;

    open spec fn view(&self) -> ActionModel {
        match self {
            GuidedQuestionAction::Analytics(v) => ActionModel::Analytics(*v),
            GuidedQuestionAction::Explore(k) => ActionModel::Explore(*k),
            GuidedQuestionAction::Pivot(a, b, m) => ActionModel::Pivot(*a, *b, *m),
            GuidedQuestionAction::Profile(id) => ActionModel::Profile(id@),
        }
    }
}

/// What each question opens; the company profile needs a company named
/// exactly.
pub open spec fn action_for(k: GuidedQuestionKind, text: Seq<char>, f: Seq<Seq<char>>) -> Option<
    ActionModel,
> {
    match k {
        GuidedQuestionKind::ProductCompanies | GuidedQuestionKind::MarketCompanies => Some(
            ActionModel::Analytics(AnalyticsView::Companies),
        ),
        GuidedQuestionKind::ProductAllCompanies => Some(
            ActionModel::Explore(AnalyticsSectionKind::Edrpou),
        ),
        GuidedQuestionKind::ProductGoods | GuidedQuestionKind::CompanyGoods
        | GuidedQuestionKind::MarketGoods => Some(ActionModel::Analytics(AnalyticsView::Products)),
        GuidedQuestionKind::ProductCountries | GuidedQuestionKind::CompanyCountries
        | GuidedQuestionKind::MarketCountries => Some(
            ActionModel::Analytics(AnalyticsView::Countries),
        ),
        GuidedQuestionKind::ProductPrices | GuidedQuestionKind::MarketPrices => Some(
            ActionModel::Analytics(AnalyticsView::Prices),
        ),
        GuidedQuestionKind::ProductTimeline | GuidedQuestionKind::CompanyTimeline => Some(
            ActionModel::Analytics(AnalyticsView::Overview),
        ),
        GuidedQuestionKind::ProductCompaniesByMonth => Some(
            ActionModel::Pivot(PivotDim::Recipient, PivotDim::Month, PivotMetric::Value),
        ),
        GuidedQuestionKind::CompanyProfile => match edrpou_candidate(text, f) {
            Some(id) => Some(ActionModel::Profile(id)),
            None => None,
        },
        GuidedQuestionKind::CompanySuppliers => Some(
            ActionModel::Explore(AnalyticsSectionKind::Senders),
        ),
        GuidedQuestionKind::CompanyGoodsByMonth => Some(
            ActionModel::Pivot(PivotDim::ProductCode, PivotDim::Month, PivotMetric::Value),
        ),
    }
}

/// What a guided question opens for the current search.
pub fn guided_question_action(kind: GuidedQuestionKind, text: &str, filters: &Filters) -> (r:
    Option<GuidedQuestionAction>)
    ensures
        match r {
            Some(a) => action_for(kind, text@, filters@) == Some(a@),
            None => action_for(kind, text@, filters@) is None,
        },
{
    match kind {
        GuidedQuestionKind::ProductCompanies | GuidedQuestionKind::MarketCompanies => Some(
            GuidedQuestionAction::Analytics(AnalyticsView::Companies),
        ),
        GuidedQuestionKind::ProductAllCompanies => Some(
            GuidedQuestionAction::Explore(AnalyticsSectionKind::Edrpou),
        ),
        GuidedQuestionKind::ProductGoods | GuidedQuestionKind::CompanyGoods
        | GuidedQuestionKind::MarketGoods => Some(
            GuidedQuestionAction::Analytics(AnalyticsView::Products),
        ),
        GuidedQuestionKind::ProductCountries | GuidedQuestionKind::CompanyCountries
        | GuidedQuestionKind::MarketCountries => Some(
            GuidedQuestionAction::Analytics(AnalyticsView::Countries),
        ),
        GuidedQuestionKind::ProductPrices | GuidedQuestionKind::MarketPrices => Some(
            GuidedQuestionAction::Analytics(AnalyticsView::Prices),
        ),
        GuidedQuestionKind::ProductTimeline | GuidedQuestionKind::CompanyTimeline => Some(
            GuidedQuestionAction::Analytics(AnalyticsView::Overview),
        ),
        GuidedQuestionKind::ProductCompaniesByMonth => Some(
            GuidedQuestionAction::Pivot(PivotDim::Recipient, PivotDim::Month, PivotMetric::Value),
        ),
        GuidedQuestionKind::CompanyProfile => match exact_edrpou_candidate(text, filters) {
            Some(id) => Some(GuidedQuestionAction::Profile(id)),
            None => None,
        },
        GuidedQuestionKind::CompanySuppliers => Some(
            GuidedQuestionAction::Explore(AnalyticsSectionKind::Senders),
        ),
        GuidedQuestionKind::CompanyGoodsByMonth => Some(
            GuidedQuestionAction::Pivot(
                PivotDim::ProductCode,
                PivotDim::Month,
                PivotMetric::Value,
            ),
        ),
    }
}

/// Every question offered for a search opens something: the profile is
/// offered only when a company is named exactly.
pub proof fn lemma_offered_questions_open_something(text: Seq<char>, f: Seq<Seq<char>>, i: int)
    requires
        0 <= i < questions_for(text, f).len(),
    ensures
        action_for(questions_for(text, f)[i].1, text, f) is Some,
{
    let q = questions_for(text, f);
    if q[i].1 == GuidedQuestionKind::CompanyProfile {
        assert(edrpou_candidate(text, f) is Some);
    }
}

/// Marks the underpricing results in flight as stale: the generation moves
/// on (wrapping at the top of the range), so it differs from every stale one.
pub fn invalidate_underpricing_generation(generation: &mut u64)
    ensures
        *final(generation) == (if *old(generation) == u64::MAX {
            0
        } else {
            (*old(generation) + 1) as u64
        }),
        *final(generation) != *old(generation),
{
    *generation = generation.wrapping_add(1);
}

} // verus!
