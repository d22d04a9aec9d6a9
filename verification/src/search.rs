//! Typed query expressions, field metadata, and their labels.

use vstd::prelude::*;
use crate::text::{blank, trim, trim_str, is_blank, str_eq, has_infix, str_lowercase, lowercase, str_contains, join, views, join_strings};
use crate::schema::{result_column, result_column_at, header_for, header_label, RESULT_COLUMN_COUNT};

verus! {

/// A node of an advanced query: a group of nodes or a single rule.
#[derive(Debug, PartialEq, Eq)]
pub enum QueryExpr {
    Group(QueryGroup),
    Condition(QueryCondition),
}

/// Child expressions combined with one logic operator, optionally negated.
#[derive(Debug, PartialEq, Eq)]
pub struct QueryGroup {
    pub op: LogicOp,
    pub negated: bool,
    pub children: Vec<QueryExpr>,
}

#[derive(Clone, Copy, Debug, PartialEq, Eq, Structural)]
pub enum LogicOp {
    And,
    Or,
}

/// One rule: a field, an operator, and the operator's value.
#[derive(Debug, PartialEq, Eq)]
pub struct QueryCondition {
    pub field: FieldRef,
    pub op: ConditionOp,
    pub value: ConditionValue,
    pub negated: bool,
}

/// A known schema column, or an extra column preserved from a source file.
#[derive(Debug, PartialEq, Eq)]
pub enum FieldRef {
    Column(String),
    Extra(String),
}

#[derive(Clone, Copy, Debug, PartialEq, Eq, Structural)]
pub enum ConditionOp {
    Contains,
    Equals,
    StartsWith,
    IsAnyOf,
    Range,
    IsEmpty,
    IsNotEmpty,
}

#[derive(Debug, PartialEq, Eq)]
pub enum ConditionValue {
    NoValue,
    Single(String),
    List(Vec<String>),
    Range { from: Option<String>, to: Option<String> },
}

/// Metadata of one searchable field.
#[derive(Clone, Debug, PartialEq, Eq)]
pub struct FieldInfo {
    pub id: String,
    pub label: String,
    pub kind: FieldKind,
    pub source: FieldRef,
    pub operators: Vec<ConditionOp>,
}

#[derive(Clone, Copy, Debug, PartialEq, Eq, Structural)]
pub enum FieldKind {
    Text,
    Code,
    Country,
    Number,
    Date,
    Year,
}

// ---------- models ----------

/// Abstract field reference.
pub enum FieldRefModel {
    Column(Seq<char>),
    Extra(Seq<char>),
}

/// Abstract operator value.
pub enum ValueModel {
    NoValue,
    Single(Seq<char>),
    List(Seq<Seq<char>>),
    Range(Option<Seq<char>>, Option<Seq<char>>),
}

/// Abstract rule.
pub struct ConditionModel {
    pub field: FieldRefModel,
    pub op: ConditionOp,
    pub value: ValueModel,
    pub negated: bool,
}

/// Abstract group.
pub struct GroupModel {
    pub op: LogicOp,
    pub negated: bool,
    pub children: Seq<ExprModel>,
}

/// Abstract query expression.
pub enum ExprModel {
    Group(GroupModel),
    Condition(ConditionModel),
}

pub open spec fn opt_view(o: Option<String>) -> Option<Seq<char>> {
    match o {
        Some(s) => Some(s@),
        None => None,
    }
}

impl View for FieldRef {
    type V = FieldRefModel;

    open spec fn view(&self) -> FieldRefModel {
        match self {
            FieldRef::Column(s) => FieldRefModel::Column(s@),
            FieldRef::Extra(s) => FieldRefModel::Extra(s@),
        }
    }
}

impl View for ConditionValue {
    type V = ValueModel;

    open spec fn view(&self) -> ValueModel {
        match self {
            ConditionValue::NoValue => ValueModel::NoValue,
            ConditionValue::Single(s) => ValueModel::Single(s@),
            ConditionValue::List(v) => ValueModel::List(views(v@)),
            ConditionValue::Range { from, to } => ValueModel::Range(opt_view(*from), opt_view(*to)),
        }
    }
}

impl View for QueryCondition {
    type V = ConditionModel;

    open spec fn view(&self) -> ConditionModel {
        ConditionModel {
            field: self.field@,
            op: self.op,
            value: self.value@,
            negated: self.negated,
        }
    }
}

/// Model of an expression tree.
pub open spec fn expr_model(e: QueryExpr) -> ExprModel
    decreases e,
{
    match e {
        QueryExpr::Group(g) => ExprModel::Group(
            GroupModel {
                op: g.op,
                negated: g.negated,
                children: Seq::new(
                    g.children@.len(),
                    |i: int|
                        if 0 <= i < g.children@.len() {
                            expr_model(g.children@[i])
                        } else {
                            ExprModel::Group(GroupModel { op: LogicOp::And, negated: false, children: Seq::empty() })
                        },
                ),
            },
        ),
        QueryExpr::Condition(c) => ExprModel::Condition(c@),
    }
}

/// Models of a sequence of expression trees.
pub open spec fn exprs_model(cs: Seq<QueryExpr>) -> Seq<ExprModel> {
    Seq::new(cs.len(), |i: int| expr_model(cs[i]))
}

impl View for QueryExpr {
    type V = ExprModel;

    open spec fn view(&self) -> ExprModel {
        expr_model(*self)
    }
}

impl View for QueryGroup {
    type V = GroupModel;

    open spec fn view(&self) -> GroupModel {
        GroupModel { op: self.op, negated: self.negated, children: exprs_model(self.children@) }
    }
}

pub proof fn lemma_group_view(g: QueryGroup)
    ensures
        QueryExpr::Group(g)@ == ExprModel::Group(g@),
{
    assert(exprs_model(g.children@) =~= match expr_model(QueryExpr::Group(g)) {
        ExprModel::Group(m) => m.children,
        _ => Seq::empty(),
    });
}

// ---------- emptiness ----------

/// An optional text is absent or blank.
pub open spec fn opt_blank(o: Option<Seq<char>>) -> bool {
    match o {
        Some(s) => blank(s),
        None => true,
    }
}

/// A rule constrains nothing: its operator needs a value and the value is
/// missing or blank.
pub open spec fn condition_empty(c: ConditionModel) -> bool {
    match c.op {
        ConditionOp::IsEmpty | ConditionOp::IsNotEmpty => false,
        ConditionOp::Contains | ConditionOp::Equals | ConditionOp::StartsWith => match c.value {
            ValueModel::Single(v) => blank(v),
            _ => true,
        },
        ConditionOp::IsAnyOf => match c.value {
            ValueModel::List(vs) => forall|i: int| #![trigger vs[i]] 0 <= i < vs.len() ==> blank(vs[i]),
            _ => true,
        },
        ConditionOp::Range => match c.value {
            ValueModel::Range(from, to) => opt_blank(from) && opt_blank(to),
            _ => true,
        },
    }
}

/// An expression constrains nothing: a rule that is empty, or a group whose
/// children all constrain nothing.
pub open spec fn expr_empty(e: ExprModel) -> bool
    decreases e,
{
    match e {
        ExprModel::Group(g) => all_empty(g.children),
        ExprModel::Condition(c) => condition_empty(c),
    }
}

/// Every expression of `cs` constrains nothing.
pub open spec fn all_empty(cs: Seq<ExprModel>) -> bool
    decreases cs,
{
    if cs.len() == 0 {
        true
    } else {
        expr_empty(cs[0]) && all_empty(cs.drop_first())
    }
}

proof fn lemma_list_not_empty(c: ConditionModel, vs: Seq<Seq<char>>, i: int)
    requires
        c.op == ConditionOp::IsAnyOf,
        c.value == ValueModel::List(vs),
        0 <= i < vs.len(),
        !blank(vs[i]),
    ensures
        !condition_empty(c),
{
    if condition_empty(c) {
        match c.value {
            ValueModel::List(l) => {
                assert(l == vs);
                assert(blank(l[i]));
            },
            _ => {},
        }
    }
}

pub proof fn lemma_all_empty(cs: Seq<ExprModel>)
    ensures
        all_empty(cs) <==> forall|i: int| 0 <= i < cs.len() ==> expr_empty(#[trigger] cs[i]),
    decreases cs.len(),
{
    if cs.len() > 0 {
        let t = cs.drop_first();
        lemma_all_empty(t);
        if all_empty(cs) {
            assert forall|i: int| 0 <= i < cs.len() implies expr_empty(#[trigger] cs[i]) by {
                if i > 0 {
                    assert(cs[i] == t[i - 1]);
                }
            }
        }
        if forall|i: int| 0 <= i < cs.len() ==> expr_empty(#[trigger] cs[i]) {
            assert forall|i: int| 0 <= i < t.len() implies expr_empty(#[trigger] t[i]) by {
                assert(t[i] == cs[i + 1]);
            }
            assert(expr_empty(cs[0]));
        }
    }
}

// ---------- copies ----------

fn copy_strings(v: &Vec<String>) -> (r: Vec<String>)
    ensures
        r@ == v@,
{
    let mut r: Vec<String> = Vec::new();
    let mut i: usize = 0;
    while i < v.len()
        invariant
            i <= v@.len(),
            r@ == v@.take(i as int),
        decreases v.len() - i,
    {
        r.push(v[i].clone());
        i += 1;
        assert(r@ =~= v@.take(i as int));
    }
    assert(v@.take(v@.len() as int) =~= v@);
    r
}

fn copy_opt_string(o: &Option<String>) -> (r: Option<String>)
    ensures
        r == *o,
{
    match o {
        Some(s) => Some(s.clone()),
        None => None,
    }
}

impl Clone for FieldRef {
    fn clone(&self) -> (r: Self)
        ensures
            r == *self,
    {
        match self {
            FieldRef::Column(s) => FieldRef::Column(s.clone()),
            FieldRef::Extra(s) => FieldRef::Extra(s.clone()),
        }
    }
}

impl Clone for ConditionValue {
    fn clone(&self) -> (r: Self)
        ensures
            r@ == self@,
    {
        match self {
            ConditionValue::NoValue => ConditionValue::NoValue,
            ConditionValue::Single(s) => ConditionValue::Single(s.clone()),
            ConditionValue::List(v) => ConditionValue::List(copy_strings(v)),
            ConditionValue::Range { from, to } => ConditionValue::Range {
                from: copy_opt_string(from),
                to: copy_opt_string(to),
            },
        }
    }
}

impl Clone for QueryCondition {
    fn clone(&self) -> (r: Self)
        ensures
            r@ == self@,
    {
        QueryCondition {
            field: self.field.clone(),
            op: self.op,
            value: self.value.clone(),
            negated: self.negated,
        }
    }
}

fn copy_exprs(v: &Vec<QueryExpr>) -> (r: Vec<QueryExpr>)
    ensures
        exprs_model(r@) == exprs_model(v@),
    decreases v@,
{
    let mut r: Vec<QueryExpr> = Vec::new();
    let mut i: usize = 0;
    while i < v.len()
        invariant
            i <= v@.len(),
            r@.len() == i,
            exprs_model(r@) == exprs_model(v@.take(i as int)),
        decreases v.len() - i,
    {
        assert(decreases_to!(v@ => v@[i as int]));
        let c = copy_expr(&v[i]);
        let ghost old_r = r@;
        r.push(c);
        i += 1;
        assert forall|k: int| 0 <= k < i implies #[trigger] exprs_model(r@)[k] == exprs_model(
            v@.take(i as int),
        )[k] by {
            if k < i - 1 {
                assert(exprs_model(old_r)[k] == exprs_model(v@.take(i - 1))[k]);
                assert(r@[k] == old_r[k]);
            }
        }
        assert(exprs_model(r@) =~= exprs_model(v@.take(i as int)));
    }
    assert(v@.take(v@.len() as int) =~= v@);
    r
}

fn copy_expr(e: &QueryExpr) -> (r: QueryExpr)
    ensures
        r@ == e@,
    decreases e,
{
    match e {
        QueryExpr::Group(g) => {
            assert(decreases_to!(*e => g.children@));
            let children = copy_exprs(&g.children);
            let r = QueryExpr::Group(QueryGroup { op: g.op, negated: g.negated, children });
            proof {
                lemma_group_view(*g);
                lemma_group_view(QueryGroup { op: g.op, negated: g.negated, children });
            }
            r
        },
        QueryExpr::Condition(c) => QueryExpr::Condition(c.clone()),
    }
}

impl Clone for QueryExpr {
    fn clone(&self) -> (r: Self)
        ensures
            r@ == self@,
    {
        copy_expr(self)
    }
}

impl Clone for QueryGroup {
    fn clone(&self) -> (r: Self)
        ensures
            r@ == self@,
    {
        QueryGroup { op: self.op, negated: self.negated, children: copy_exprs(&self.children) }
    }
}

// ---------- emptiness, executable ----------

fn text_blank(s: &String) -> (r: bool)
    ensures
        r == blank(s@),
{
    is_blank(s.as_str())
}

fn opt_text_blank(o: &Option<String>) -> (r: bool)
    ensures
        r == opt_blank(opt_view(*o)),
{
    match o {
        Some(s) => text_blank(s),
        None => true,
    }
}

impl QueryCondition {
    /// The rule constrains nothing: its operator needs a value and the value
    /// is missing or blank.
    pub fn is_empty(&self) -> (r: bool)
        ensures
            r == condition_empty(self@),
    {
        match self.op {
            ConditionOp::IsEmpty | ConditionOp::IsNotEmpty => false,
            ConditionOp::Contains | ConditionOp::Equals | ConditionOp::StartsWith => match &self.value {
                ConditionValue::Single(v) => text_blank(v),
                _ => true,
            },
            ConditionOp::IsAnyOf => match &self.value {
                ConditionValue::List(vs) => {
                    let mut i: usize = 0;
                    while i < vs.len()
                        invariant
                            i <= vs@.len(),
                            self@.value == ValueModel::List(views(vs@)),
                            self.op == ConditionOp::IsAnyOf,
                            forall|k: int| 0 <= k < i ==> blank(#[trigger] vs@[k]@),
                        decreases vs.len() - i,
                    {
                        if !text_blank(&vs[i]) {
                            assert(self@.value == ValueModel::List(views(vs@)));
                            assert(!blank(views(vs@)[i as int]));
                            proof {
                                lemma_list_not_empty(self@, views(vs@), i as int);
                            }
                            return false;
                        }
                        i += 1;
                    }
                    assert forall|k: int| 0 <= k < views(vs@).len() implies blank(
                        #[trigger] views(vs@)[k],
                    ) by {
                        assert(views(vs@)[k] == vs@[k]@);
                    }
                    true
                },
                _ => true,
            },
            ConditionOp::Range => match &self.value {
                ConditionValue::Range { from, to } => opt_text_blank(from) && opt_text_blank(to),
                _ => true,
            },
        }
    }
}

fn exprs_all_empty(cs: &Vec<QueryExpr>) -> (r: bool)
    ensures
        r == all_empty(exprs_model(cs@)),
    decreases cs@,
{
    proof {
        lemma_all_empty(exprs_model(cs@));
    }
    let mut i: usize = 0;
    while i < cs.len()
        invariant
            i <= cs@.len(),
            forall|k: int| 0 <= k < i ==> expr_empty(#[trigger] exprs_model(cs@)[k]),
        decreases cs.len() - i,
    {
        assert(exprs_model(cs@)[i as int] == cs@[i as int]@);
        assert(decreases_to!(cs@ => cs@[i as int]));
        if !expr_is_empty(&cs[i]) {
            assert(exprs_model(cs@)[i as int] == cs@[i as int]@);
            assert(!expr_empty(exprs_model(cs@)[i as int]));
            proof {
                lemma_all_empty(exprs_model(cs@));
            }
            return false;
        }
        i += 1;
    }
    proof {
        lemma_all_empty(exprs_model(cs@));
    }
    true
}

fn expr_is_empty(e: &QueryExpr) -> (r: bool)
    ensures
        r == expr_empty(e@),
    decreases e,
{
    match e {
        QueryExpr::Group(g) => {
            assert(decreases_to!(*e => g.children@));
            proof {
                lemma_group_view(*g);
            }
            exprs_all_empty(&g.children)
        },
        QueryExpr::Condition(c) => c.is_empty(),
    }
}

impl QueryExpr {
    /// The expression constrains nothing.
    pub fn is_empty(&self) -> (r: bool)
        ensures
            r == expr_empty(self@),
    {
        expr_is_empty(self)
    }
}

impl QueryGroup {
    /// Every child constrains nothing (true for a group without children).
    pub fn is_empty(&self) -> (r: bool)
        ensures
            r == all_empty(self@.children),
    {
        exprs_all_empty(&self.children)
    }

    /// The group as an expression, unless it constrains nothing.
    pub fn as_expr(self) -> (r: Option<QueryExpr>)
        ensures
            all_empty(self@.children) ==> r is None,
            !all_empty(self@.children) ==> (r matches Some(e) && e@ == ExprModel::Group(self@)),
    {
        if self.is_empty() {
            None
        } else {
            proof {
                lemma_group_view(self);
            }
            Some(QueryExpr::Group(self))
        }
    }
}

impl Default for QueryGroup {
    fn default() -> (r: Self)
        ensures
            r.op == LogicOp::And,
            !r.negated,
            r.children@.len() == 0,
    {
        QueryGroup { op: LogicOp::And, negated: false, children: Vec::new() }
    }
}

// ---------- labels ----------

pub open spec fn logic_op_text(op: LogicOp) -> Seq<char> {
    match op {
        LogicOp::And => "AND"@,
        LogicOp::Or => "OR"@,
    }
}

impl LogicOp {
    pub fn as_str(self) -> (r: &'static str)
        ensures
            r@ == logic_op_text(self),
    {
        match self {
            LogicOp::And => "AND",
            LogicOp::Or => "OR",
        }
    }
}

pub open spec fn op_text(op: ConditionOp) -> Seq<char> {
    match op {
        ConditionOp::Contains => "contains"@,
        ConditionOp::Equals => "equals"@,
        ConditionOp::StartsWith => "starts with"@,
        ConditionOp::IsAnyOf => "is any of"@,
        ConditionOp::Range => "is between"@,
        ConditionOp::IsEmpty => "is empty"@,
        ConditionOp::IsNotEmpty => "is not empty"@,
    }
}

impl ConditionOp {
    pub fn label(self) -> (r: &'static str)
        ensures
            r@ == op_text(self),
    {
        match self {
            ConditionOp::Contains => "contains",
            ConditionOp::Equals => "equals",
            ConditionOp::StartsWith => "starts with",
            ConditionOp::IsAnyOf => "is any of",
            ConditionOp::Range => "is between",
            ConditionOp::IsEmpty => "is empty",
            ConditionOp::IsNotEmpty => "is not empty",
        }
    }
}

/// Identifier of a field: its column name, or `extra:` and the header.
pub open spec fn field_id(f: FieldRefModel) -> Seq<char> {
    match f {
        FieldRefModel::Column(n) => n,
        FieldRefModel::Extra(h) => "extra:"@ + h,
    }
}

impl FieldRef {
    pub fn id(&self) -> (r: String)
        ensures
            r@ == field_id(self@),
    {
        match self {
            FieldRef::Column(name) => name.clone(),
            FieldRef::Extra(header) => {
                let mut s = String::from_str("extra:");
                s.append(header.as_str());
                s
            },
        }
    }
}

impl ConditionValue {
    /// The text of a single-value operator.
    pub fn single(&self) -> (r: Option<&str>)
        ensures
            match self@ {
                ValueModel::Single(v) => r matches Some(s) && s@ == v,
                _ => r is None,
            },
    {
        match self {
            ConditionValue::Single(value) => Some(value.as_str()),
            _ => None,
        }
    }

    /// The texts of a list operator.
    pub fn list(&self) -> (r: Option<&[String]>)
        ensures
            match self@ {
                ValueModel::List(vs) => r matches Some(l) && views(l@) == vs,
                _ => r is None,
            },
    {
        match self {
            ConditionValue::List(values) => Some(values.as_slice()),
            _ => None,
        }
    }

    /// The bounds of a range operator.
    pub fn range(&self) -> (r: Option<(Option<&String>, Option<&String>)>)
        ensures
            match *self {
                ConditionValue::Range { from, to } => r matches Some(p) && ref_of(p.0) == from
                    && ref_of(p.1) == to,
                _ => r is None,
            },
    {
        match self {
            ConditionValue::Range { from, to } => Some((from.as_ref(), to.as_ref())),
            _ => None,
        }
    }
}

/// The value behind an optional reference.
pub open spec fn ref_of(o: Option<&String>) -> Option<String> {
    match o {
        Some(s) => Some(*s),
        None => None,
    }
}

/// Text of an operator's value: a list joined with ", ", a range as
/// `from..to`.
pub open spec fn value_text(v: ValueModel) -> Seq<char> {
    match v {
        ValueModel::NoValue => Seq::empty(),
        ValueModel::Single(s) => s,
        ValueModel::List(vs) => join(vs, ", "@),
        ValueModel::Range(from, to) => opt_text(from) + ".."@ + opt_text(to),
    }
}

/// An optional text, absent as the empty text.
pub open spec fn opt_text(o: Option<Seq<char>>) -> Seq<char> {
    match o {
        Some(s) => s,
        None => Seq::empty(),
    }
}

fn opt_string(o: &Option<String>) -> (r: String)
    ensures
        r@ == opt_text(opt_view(*o)),
{
    match o {
        Some(s) => s.clone(),
        None => String::new(),
    }
}

fn value_label(value: &ConditionValue) -> (r: String)
    ensures
        r@ == value_text(value@),
{
    match value {
        ConditionValue::NoValue => String::new(),
        ConditionValue::Single(value) => value.clone(),
        ConditionValue::List(values) => join_strings(values, ", "),
        ConditionValue::Range { from, to } => {
            let mut s = opt_string(from);
            s.append("..");
            let t = opt_string(to);
            s.append(t.as_str());
            s
        },
    }
}

/// The text of a rule's value as the interface shows it: a list joined by
/// commas, a range as `from..to`.
pub fn condition_value_label(value: &ConditionValue) -> (r: String)
    ensures
        r@ == value_text(value@),
{
    value_label(value)
}

// ---------- field catalog ----------

/// Abstract field metadata.
pub struct FieldInfoModel {
    pub id: Seq<char>,
    pub label: Seq<char>,
    pub kind: FieldKind,
    pub source: FieldRefModel,
    pub operators: Seq<ConditionOp>,
}

impl View for FieldInfo {
    type V = FieldInfoModel;

    open spec fn view(&self) -> FieldInfoModel {
        FieldInfoModel {
            id: self.id@,
            label: self.label@,
            kind: self.kind,
            source: self.source@,
            operators: self.operators@,
        }
    }
}

/// Models of a sequence of field metadata.
pub open spec fn fields_model(v: Seq<FieldInfo>) -> Seq<FieldInfoModel> {
    v.map_values(|f: FieldInfo| f@)
}

/// Kind of a known result column.
pub open spec fn kind_for_column(name: Seq<char>) -> FieldKind {
    if name == "year"@ {
        FieldKind::Year
    } else if name == "product_code"@ || name == "declaration_number"@ || name == "edrpou"@ {
        FieldKind::Code
    } else if name == "trade_country"@ || name == "dispatch_country"@ || name == "origin_country"@ {
        FieldKind::Country
    } else if name == "declaration_date"@ {
        FieldKind::Date
    } else if name == "quantity"@ || name == "gross_kg"@ || name == "net_kg"@ || name == "declaration_weight"@ || name == "currency_control_value"@ || name == "rfv_usd_kg"@ || name == "unit_weight"@ || name == "weight_difference"@ || name == "rmv_net_usd_kg"@ || name == "rmv_usd_extra_unit"@ || name == "rmv_gross_usd_kg"@ || name == "min_base_usd_kg"@ || name == "min_base_difference"@ || name == "preferential"@ || name == "full_rate"@ {
        FieldKind::Number
    } else {
        FieldKind::Text
    }
}

/// Kind of a known result column; unknown names are text.
pub fn field_kind_for_column(name: &str) -> (r: FieldKind)
    ensures
        r == kind_for_column(name@),
{
    if str_eq(name, "year") {
        FieldKind::Year
    } else if str_eq(name, "product_code") || str_eq(name, "declaration_number") || str_eq(name, "edrpou") {
        FieldKind::Code
    } else if str_eq(name, "trade_country") || str_eq(name, "dispatch_country") || str_eq(name, "origin_country") {
        FieldKind::Country
    } else if str_eq(name, "declaration_date") {
        FieldKind::Date
    } else if str_eq(name, "quantity") || str_eq(name, "gross_kg") || str_eq(name, "net_kg") || str_eq(name, "declaration_weight") || str_eq(name, "currency_control_value") || str_eq(name, "rfv_usd_kg") || str_eq(name, "unit_weight") || str_eq(name, "weight_difference") || str_eq(name, "rmv_net_usd_kg") || str_eq(name, "rmv_usd_extra_unit") || str_eq(name, "rmv_gross_usd_kg") || str_eq(name, "min_base_usd_kg") || str_eq(name, "min_base_difference") || str_eq(name, "preferential") || str_eq(name, "full_rate") {
        FieldKind::Number
    } else {
        FieldKind::Text
    }
}

/// Operators offered for a kind of field, in menu order.
pub open spec fn operators_for(kind: FieldKind) -> Seq<ConditionOp> {
    match kind {
        FieldKind::Text => seq![
            ConditionOp::Contains,
            ConditionOp::Equals,
            ConditionOp::StartsWith,
            ConditionOp::IsAnyOf,
            ConditionOp::IsEmpty,
            ConditionOp::IsNotEmpty,
        ],
        FieldKind::Code => seq![
            ConditionOp::StartsWith,
            ConditionOp::Equals,
            ConditionOp::IsAnyOf,
            ConditionOp::IsEmpty,
            ConditionOp::IsNotEmpty,
        ],
        FieldKind::Country => seq![
            ConditionOp::Equals,
            ConditionOp::IsAnyOf,
            ConditionOp::IsEmpty,
            ConditionOp::IsNotEmpty,
        ],
        FieldKind::Number | FieldKind::Date | FieldKind::Year => seq![
            ConditionOp::Equals,
            ConditionOp::Range,
            ConditionOp::IsEmpty,
            ConditionOp::IsNotEmpty,
        ],
    }
}

/// Operators offered for a kind of field.
pub fn operators_for_kind(kind: FieldKind) -> (r: Vec<ConditionOp>)
    ensures
        r@ == operators_for(kind),
{
    let r = match kind {
        FieldKind::Text => vec![
            ConditionOp::Contains,
            ConditionOp::Equals,
            ConditionOp::StartsWith,
            ConditionOp::IsAnyOf,
            ConditionOp::IsEmpty,
            ConditionOp::IsNotEmpty,
        ],
        FieldKind::Code => vec![
            ConditionOp::StartsWith,
            ConditionOp::Equals,
            ConditionOp::IsAnyOf,
            ConditionOp::IsEmpty,
            ConditionOp::IsNotEmpty,
        ],
        FieldKind::Country => vec![
            ConditionOp::Equals,
            ConditionOp::IsAnyOf,
            ConditionOp::IsEmpty,
            ConditionOp::IsNotEmpty,
        ],
        FieldKind::Number | FieldKind::Date | FieldKind::Year => vec![
            ConditionOp::Equals,
            ConditionOp::Range,
            ConditionOp::IsEmpty,
            ConditionOp::IsNotEmpty,
        ],
    };
    assert(r@ =~= operators_for(kind));
    r
}

/// Metadata of a known column: its label is the given one, or the column
/// name when the label is empty.
pub open spec fn column_field(name: Seq<char>, label: Seq<char>, kind: FieldKind) -> FieldInfoModel {
    FieldInfoModel {
        id: name,
        label: if label.len() == 0 { name } else { label },
        kind,
        source: FieldRefModel::Column(name),
        operators: operators_for(kind),
    }
}

fn field_info(name: &str, label: String, kind: FieldKind) -> (r: FieldInfo)
    ensures
        r@ == column_field(name@, label@, kind),
{
    let label = if label.as_str().is_empty() {
        String::from_str(name)
    } else {
        label
    };
    FieldInfo {
        id: String::from_str(name),
        label,
        kind,
        source: FieldRef::Column(String::from_str(name)),
        operators: operators_for_kind(kind),
    }
}

/// Kind guessed for an extra column from words in its lowercase header.
pub open spec fn extra_kind(header: Seq<char>) -> FieldKind {
    let l = str_lowercase(header);
    if has_infix(l, "date"@) || has_infix(l, "дата"@) {
        FieldKind::Date
    } else if has_infix(l, "country"@) || has_infix(l, "кра"@) || has_infix(l, "стра"@) {
        FieldKind::Country
    } else if has_infix(l, "code"@) || has_infix(l, "код"@) || has_infix(l, "number"@) {
        FieldKind::Code
    } else if has_infix(l, "kg"@) || has_infix(l, "кг"@) || has_infix(l, "price"@) || has_infix(
        l,
        "value"@,
    ) || has_infix(l, "amount"@) || has_infix(l, "quantity"@) || has_infix(l, "qty"@) {
        FieldKind::Number
    } else {
        FieldKind::Text
    }
}

fn infer_extra_field_kind(header: &str) -> (r: FieldKind)
    ensures
        r == extra_kind(header@),
{
    let lower = lowercase(header);
    let l = lower.as_str();
    if str_contains(l, "date") || str_contains(l, "дата") {
        FieldKind::Date
    } else if str_contains(l, "country") || str_contains(l, "кра") || str_contains(l, "стра") {
        FieldKind::Country
    } else if str_contains(l, "code") || str_contains(l, "код") || str_contains(l, "number") {
        FieldKind::Code
    } else if str_contains(l, "kg") || str_contains(l, "кг") || str_contains(l, "price")
        || str_contains(l, "value") || str_contains(l, "amount") || str_contains(l, "quantity")
        || str_contains(l, "qty") {
        FieldKind::Number
    } else {
        FieldKind::Text
    }
}

/// Metadata of an extra source column with an already trimmed header.
pub open spec fn extra_field(h: Seq<char>) -> FieldInfoModel {
    FieldInfoModel {
        id: "extra:"@ + h,
        label: h,
        kind: extra_kind(h),
        source: FieldRefModel::Extra(h),
        operators: operators_for(extra_kind(h)),
    }
}

/// The trimmed, non-blank headers of `hs`, in order.
pub open spec fn kept_headers(hs: Seq<Seq<char>>) -> Seq<Seq<char>>
    decreases hs.len(),
{
    if hs.len() == 0 {
        Seq::empty()
    } else if trim(hs.last()).len() == 0 {
        kept_headers(hs.drop_last())
    } else {
        kept_headers(hs.drop_last()).push(trim(hs.last()))
    }
}

/// The field of result column `i`, labelled with its source header.
pub open spec fn result_field(i: int) -> FieldInfoModel {
    column_field(result_column(i), header_label(result_column(i)), kind_for_column(result_column(i)))
}

/// The searchable fields: the year, every result column, then one field per
/// non-blank extra header.
pub open spec fn catalog(extra_headers: Seq<Seq<char>>) -> Seq<FieldInfoModel> {
    seq![column_field("year"@, "Year"@, FieldKind::Year)] + Seq::new(42, |i: int| result_field(i))
        + kept_headers(extra_headers).map_values(|h: Seq<char>| extra_field(h))
}

/// Field metadata for the advanced search: the year, every result column,
/// and the extra source columns given by their headers.
pub fn field_catalog(extra_headers: Vec<String>) -> (r: Vec<FieldInfo>)
    ensures
        fields_model(r@) == catalog(views(extra_headers@)),
{
    let mut fields: Vec<FieldInfo> = Vec::new();
    fields.push(field_info("year", String::from_str("Year"), FieldKind::Year));
    let mut i: usize = 0;
    while i < RESULT_COLUMN_COUNT
        invariant
            i <= RESULT_COLUMN_COUNT,
            fields@.len() == 1 + i,
            fields@[0]@ == column_field("year"@, "Year"@, FieldKind::Year),
            forall|k: int| 0 <= k < i ==> #[trigger] fields@[1 + k]@ == result_field(k),
        decreases RESULT_COLUMN_COUNT - i,
    {
        let name = result_column_at(i);
        let f = field_info(name, String::from_str(header_for(name)), field_kind_for_column(name));
        let ghost old_fields = fields@;
        fields.push(f);
        i += 1;
        assert forall|k: int| 0 <= k < i implies #[trigger] fields@[1 + k]@ == result_field(k) by {
            if k < i - 1 {
                assert(fields@[1 + k] == old_fields[1 + k]);
            }
        }
    }
    let ghost hs = views(extra_headers@);
    let ghost base = fields@;
    let mut j: usize = 0;
    while j < extra_headers.len()
        invariant
            j <= extra_headers@.len(),
            hs == views(extra_headers@),
            fields@.len() == 43 + kept_headers(hs.take(j as int)).len(),
            base.len() == 43,
            forall|k: int| 0 <= k < 43 ==> #[trigger] fields@[k] == base[k],
            forall|k: int|
                0 <= k < kept_headers(hs.take(j as int)).len() ==> #[trigger] fields@[43 + k]@
                    == extra_field(kept_headers(hs.take(j as int))[k]),
        decreases extra_headers.len() - j,
    {
        assert(hs.take(j + 1).drop_last() =~= hs.take(j as int));
        assert(hs.take(j + 1).last() == extra_headers@[j as int]@);
        let ghost kept_before = kept_headers(hs.take(j as int));
        let trimmed = trim_str(extra_headers[j].as_str());
        if trimmed.as_str().is_empty() {
            j += 1;
            assert(kept_headers(hs.take(j as int)) == kept_before);
            continue;
        }
        let kind = infer_extra_field_kind(trimmed.as_str());
        let mut id = String::from_str("extra:");
        id.append(trimmed.as_str());
        let f = FieldInfo {
            id,
            label: trimmed.clone(),
            kind,
            source: FieldRef::Extra(trimmed),
            operators: operators_for_kind(kind),
        };
        let ghost old_fields = fields@;
        fields.push(f);
        j += 1;
        assert(kept_headers(hs.take(j as int)) == kept_before.push(trim(extra_headers@[j - 1]@)));
        assert forall|k: int|
            0 <= k < kept_headers(hs.take(j as int)).len() implies #[trigger] fields@[43 + k]@
            == extra_field(kept_headers(hs.take(j as int))[k]) by {
            if k < kept_before.len() {
                assert(fields@[43 + k] == old_fields[43 + k]);
            }
        }
    }
    assert(hs.take(extra_headers@.len() as int) =~= hs);
    assert(fields_model(fields@) =~= catalog(hs)) by {
        let c = catalog(hs);
        let kept = kept_headers(hs);
        assert(c.len() == fields@.len());
        assert forall|k: int| 0 <= k < c.len() implies #[trigger] fields_model(fields@)[k] == c[k] by {
            if k == 0 {
            } else if k < 43 {
                assert(fields@[1 + (k - 1)]@ == result_field(k - 1));
            } else {
                assert(fields@[43 + (k - 43)]@ == extra_field(kept[k - 43]));
            }
        }
    }
    fields
}

/// The catalog without extra columns.
pub fn default_field_catalog() -> (r: Vec<FieldInfo>)
    ensures
        fields_model(r@) == catalog(Seq::empty()),
{
    let r = field_catalog(Vec::new());
    assert(views(Seq::<String>::empty()) =~= Seq::empty());
    r
}

// ---------- rule defaults ----------

/// Operator a new rule starts with for a kind of field.
pub open spec fn default_op(kind: FieldKind) -> ConditionOp {
    match kind {
        FieldKind::Text => ConditionOp::Contains,
        FieldKind::Code => ConditionOp::StartsWith,
        FieldKind::Country | FieldKind::Number | FieldKind::Date | FieldKind::Year => ConditionOp::Equals,
    }
}

/// The blank value of the shape an operator takes.
pub open spec fn default_value(op: ConditionOp) -> ValueModel {
    match op {
        ConditionOp::IsEmpty | ConditionOp::IsNotEmpty => ValueModel::NoValue,
        ConditionOp::IsAnyOf => ValueModel::List(seq![Seq::empty()]),
        ConditionOp::Range => ValueModel::Range(None, None),
        ConditionOp::Contains | ConditionOp::Equals | ConditionOp::StartsWith => ValueModel::Single(
            Seq::empty(),
        ),
    }
}

/// The value has the shape the operator takes.
pub open spec fn value_fits(op: ConditionOp, v: ValueModel) -> bool {
    match op {
        ConditionOp::IsEmpty | ConditionOp::IsNotEmpty => v is NoValue,
        ConditionOp::Contains | ConditionOp::Equals | ConditionOp::StartsWith => v is Single,
        ConditionOp::IsAnyOf => v is List,
        ConditionOp::Range => v is Range,
    }
}

/// A blank value of the shape an operator takes.
pub fn default_value_for_op(op: ConditionOp) -> (r: ConditionValue)
    ensures
        r@ == default_value(op),
{
    match op {
        ConditionOp::IsEmpty | ConditionOp::IsNotEmpty => ConditionValue::NoValue,
        ConditionOp::IsAnyOf => {
            let v = vec![String::new()];
            assert(views(v@) =~= seq![Seq::<char>::empty()]);
            ConditionValue::List(v)
        },
        ConditionOp::Range => ConditionValue::Range { from: None, to: None },
        ConditionOp::Contains | ConditionOp::Equals | ConditionOp::StartsWith => {
            ConditionValue::Single(String::new())
        },
    }
}

/// A new, not negated rule on a field, with the kind's default operator and
/// a blank value.
pub fn default_condition_for_field(field: &FieldInfo) -> (r: QueryCondition)
    ensures
        r@ == (ConditionModel {
            field: field@.source,
            op: default_op(field.kind),
            value: default_value(default_op(field.kind)),
            negated: false,
        }),
{
    let op = match field.kind {
        FieldKind::Text => ConditionOp::Contains,
        FieldKind::Code => ConditionOp::StartsWith,
        FieldKind::Country | FieldKind::Number | FieldKind::Date | FieldKind::Year => {
            ConditionOp::Equals
        },
    };
    QueryCondition {
        field: field.source.clone(),
        op,
        value: default_value_for_op(op),
        negated: false,
    }
}

/// Replaces the value of a rule by the operator's blank value when its shape
/// does not fit the operator; anything else is kept.
pub fn ensure_value_matches_operator(condition: &mut QueryCondition)
    ensures
        final(condition)@ == (ConditionModel {
            value: if value_fits(old(condition).op, old(condition)@.value) {
                old(condition)@.value
            } else {
                default_value(old(condition).op)
            },
            ..old(condition)@
        }),
{
    let expected = default_value_for_op(condition.op);
    let valid = match (&condition.op, &condition.value) {
        (ConditionOp::IsEmpty, ConditionValue::NoValue) => true,
        (ConditionOp::IsNotEmpty, ConditionValue::NoValue) => true,
        (ConditionOp::Contains, ConditionValue::Single(_)) => true,
        (ConditionOp::Equals, ConditionValue::Single(_)) => true,
        (ConditionOp::StartsWith, ConditionValue::Single(_)) => true,
        (ConditionOp::IsAnyOf, ConditionValue::List(_)) => true,
        (ConditionOp::Range, ConditionValue::Range { .. }) => true,
        _ => false,
    };
    if !valid {
        condition.value = expected;
    }
}

/// The value a rule keeps after `ensure_value_matches_operator`.
pub open spec fn fitted_value(op: ConditionOp, v: ValueModel) -> ValueModel {
    if value_fits(op, v) {
        v
    } else {
        default_value(op)
    }
}

/// After `ensure_value_matches_operator` the value fits the operator, so a
/// second call changes nothing; a value that already fits is kept.
pub proof fn lemma_fitted_value(op: ConditionOp, v: ValueModel)
    ensures
        value_fits(op, fitted_value(op, v)),
        fitted_value(op, fitted_value(op, v)) == fitted_value(op, v),
        value_fits(op, v) ==> fitted_value(op, v) == v,
{
}

// ---------- labels of expressions ----------

/// Label of the first catalog field with identifier `id`, else `id` itself.
pub open spec fn catalog_label(id: Seq<char>, cat: Seq<FieldInfoModel>) -> Seq<char>
    decreases cat.len(),
{
    if cat.len() == 0 {
        id
    } else if cat[0].id == id {
        cat[0].label
    } else {
        catalog_label(id, cat.drop_first())
    }
}

proof fn lemma_catalog_label_step(id: Seq<char>, cat: Seq<FieldInfoModel>, i: int)
    requires
        0 <= i < cat.len(),
        forall|k: int| 0 <= k < i ==> (#[trigger] cat[k]).id != id,
    ensures
        catalog_label(id, cat) == catalog_label(id, cat.subrange(i, cat.len() as int)),
    decreases i,
{
    if i > 0 {
        let t = cat.drop_first();
        assert forall|k: int| 0 <= k < i - 1 implies (#[trigger] t[k]).id != id by {
            assert(t[k] == cat[k + 1]);
        }
        lemma_catalog_label_step(id, t, i - 1);
        assert(t.subrange(i - 1, t.len() as int) =~= cat.subrange(i, cat.len() as int));
    } else {
        assert(cat.subrange(0, cat.len() as int) =~= cat);
    }
}

/// Display label of a field: its catalog label, or its identifier when the
/// catalog does not know it.
pub fn field_label(field: &FieldRef, catalog: &[FieldInfo]) -> (r: String)
    ensures
        r@ == catalog_label(field_id(field@), fields_model(catalog@)),
{
    let id = field.id();
    let ghost cat = fields_model(catalog@);
    let mut i: usize = 0;
    while i < catalog.len()
        invariant
            i <= catalog@.len(),
            cat == fields_model(catalog@),
            id@ == field_id(field@),
            forall|k: int| 0 <= k < i ==> (#[trigger] cat[k]).id != id@,
        decreases catalog.len() - i,
    {
        assert(cat[i as int] == catalog@[i as int]@);
        if crate::text::str_eq(catalog[i].id.as_str(), id.as_str()) {
            proof {
                lemma_catalog_label_step(id@, cat, i as int);
            }
            return catalog[i].label.clone();
        }
        i += 1;
    }
    proof {
        lemma_catalog_label_absent(id@, cat);
    }
    id
}

proof fn lemma_catalog_label_absent(id: Seq<char>, cat: Seq<FieldInfoModel>)
    requires
        forall|k: int| 0 <= k < cat.len() ==> (#[trigger] cat[k]).id != id,
    ensures
        catalog_label(id, cat) == id,
    decreases cat.len(),
{
    if cat.len() > 0 {
        let t = cat.drop_first();
        assert forall|k: int| 0 <= k < t.len() implies (#[trigger] t[k]).id != id by {
            assert(t[k] == cat[k + 1]);
        }
        assert(cat[0].id != id);
        lemma_catalog_label_absent(id, t);
    }
}

/// "NOT " before a negated label.
pub open spec fn not_prefix(negated: bool, t: Seq<char>) -> Seq<char> {
    if negated {
        "NOT "@ + t
    } else {
        t
    }
}

/// One-line label of an expression.
pub open spec fn expr_text(e: ExprModel, cat: Seq<FieldInfoModel>) -> Seq<char> {
    match e {
        ExprModel::Group(g) => not_prefix(g.negated, logic_op_text(g.op) + " group"@),
        ExprModel::Condition(c) => trim(
            not_prefix(
                c.negated,
                catalog_label(field_id(c.field), cat) + " "@ + op_text(c.op) + " "@ + value_text(
                    c.value,
                ),
            ),
        ),
    }
}

fn prefix_not(negated: bool, text: String) -> (r: String)
    ensures
        r@ == not_prefix(negated, text@),
{
    if negated {
        let mut s = String::from_str("NOT ");
        s.append(text.as_str());
        s
    } else {
        text
    }
}

/// One-line label of an expression: a group by its logic, a rule by its
/// field, operator, and value; "NOT " marks negation.
pub fn expr_label(expr: &QueryExpr, catalog: &[FieldInfo]) -> (r: String)
    ensures
        r@ == expr_text(expr@, fields_model(catalog@)),
{
    match expr {
        QueryExpr::Group(group) => {
            proof {
                lemma_group_view(*group);
            }
            let mut text = String::from_str(group.op.as_str());
            text.append(" group");
            prefix_not(group.negated, text)
        },
        QueryExpr::Condition(condition) => {
            let mut text = field_label(&condition.field, catalog);
            text.append(" ");
            text.append(condition.op.label());
            text.append(" ");
            let v = value_label(&condition.value);
            text.append(v.as_str());
            let t = prefix_not(condition.negated, text);
            trim_str(t.as_str())
        },
    }
}

} // verus!
