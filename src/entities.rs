//! The records of the planner, as the store holds them.

use vstd::prelude::*;
use crate::codec::{decode_opt_list, encode_opt_list, json_of_list, opt_texts, stores_list};
use crate::record::Record;
use crate::text::{
    compare_flag_first, compare_int, compare_opt_text, compare_text, copy_opt_text,
    flag_first_cmp, int_cmp, lemma_opt_text_triple, lemma_text_triple, opt_text_cmp, opt_view,
    same_text, text_cmp, then_cmp,
};

verus! {

/// A business capability; capabilities form a tree through `parent_id`.
#[derive(Debug, Clone, PartialEq, Eq)]
pub struct Capability {
    pub id: String,
    pub name: String,
    pub description: Option<String>,
    pub capability_type: String,
    pub parent_id: Option<String>,
    pub colour: Option<String>,
    pub sort_order: i64,
    pub created_at: i64,
    pub updated_at: i64,
}

/// A system as stored: its technology stack is held as JSON text.
#[derive(Debug, Clone, PartialEq, Eq)]
pub struct SystemRow {
    pub id: String,
    pub name: String,
    pub description: Option<String>,
    pub owner: Option<String>,
    pub vendor: Option<String>,
    pub technology_stack: Option<String>,
    pub lifecycle_stage: String,
    pub criticality: String,
    pub support_end_date: Option<String>,
    pub extended_support_end_date: Option<String>,
    pub capability_id: Option<String>,
    pub created_at: i64,
    pub updated_at: i64,
}

/// A piece of planned work within a scenario.
#[derive(Debug, Clone, PartialEq, Eq)]
pub struct Initiative {
    pub id: String,
    pub name: String,
    pub description: Option<String>,
    pub initiative_type: String,
    pub status: String,
    pub start_date: Option<String>,
    pub end_date: Option<String>,
    pub effort_estimate: Option<i64>,
    pub effort_uncertainty: Option<i64>,
    pub cost_estimate: Option<i64>,
    pub cost_uncertainty: Option<i64>,
    pub priority: Option<i64>,
    pub scenario_id: String,
    pub created_at: i64,
    pub updated_at: i64,
}

/// A version of the plan; the baseline scenario is the accepted one.
#[derive(Debug, Clone, PartialEq, Eq)]
pub struct Scenario {
    pub id: String,
    pub name: String,
    pub description: Option<String>,
    pub scenario_type: String,
    pub is_baseline: bool,
    pub parent_scenario_id: Option<String>,
    pub created_at: i64,
    pub updated_at: i64,
}

/// A pool of resources with a capacity per period.
#[derive(Debug, Clone, PartialEq, Eq)]
pub struct ResourcePool {
    pub id: String,
    pub name: String,
    pub description: Option<String>,
    pub capacity_per_period: Option<i64>,
    pub capacity_unit: Option<String>,
    pub period_type: Option<String>,
    pub colour: Option<String>,
    pub created_at: i64,
    pub updated_at: i64,
}

/// A resource as stored: its skills are held as JSON text.
#[derive(Debug, Clone, PartialEq, Eq)]
pub struct ResourceRow {
    pub id: String,
    pub name: String,
    pub role: Option<String>,
    pub skills: Option<String>,
    pub availability: Option<i64>,
    pub resource_pool_id: Option<String>,
    pub start_date: Option<String>,
    pub end_date: Option<String>,
    pub created_at: i64,
    pub updated_at: i64,
}

/// A planning constraint, hard or soft, with the dates it applies between.
#[derive(Debug, Clone, PartialEq, Eq)]
pub struct Constraint {
    pub id: String,
    pub name: String,
    pub description: Option<String>,
    pub constraint_type: String,
    pub hardness: String,
    pub effective_date: Option<String>,
    pub expiry_date: Option<String>,
    pub created_at: i64,
    pub updated_at: i64,
}

/// A budgeting period.
#[derive(Debug, Clone, PartialEq, Eq)]
pub struct FinancialPeriod {
    pub id: String,
    pub name: String,
    pub period_type: String,
    pub start_date: String,
    pub end_date: String,
    pub budget_available: Option<i64>,
    pub created_at: i64,
    pub updated_at: i64,
}

impl Record for Capability {
    open spec fn key(&self) -> Seq<char> {
        self.id@
    }

    open spec fn scope(&self) -> Option<Seq<char>> {
        None
    }

    open spec fn order(&self, other: &Self) -> int {
        then_cmp(int_cmp(self.sort_order as int, other.sort_order as int), then_cmp(text_cmp(self.name@, other.name@), text_cmp(self.id@, other.id@)))
    }

    open spec fn created(&self) -> i64 {
        self.created_at
    }

    open spec fn updated(&self) -> i64 {
        self.updated_at
    }

    open spec fn stamped(&self, now: i64) -> Self {
        Capability {
            id: self.id,
            name: self.name,
            description: self.description,
            capability_type: self.capability_type,
            parent_id: self.parent_id,
            colour: self.colour,
            sort_order: self.sort_order,
            created_at: now,
            updated_at: now,
        }
    }

    open spec fn revised(&self, incoming: &Self, now: i64) -> Self {
        Capability {
            id: incoming.id,
            name: incoming.name,
            description: incoming.description,
            capability_type: incoming.capability_type,
            parent_id: incoming.parent_id,
            colour: incoming.colour,
            sort_order: incoming.sort_order,
            created_at: self.created_at,
            updated_at: now,
        }
    }

    fn id(&self) -> (r: &String) {
        &self.id
    }

    fn in_scope(&self, parent: &str) -> (r: bool) {
        false
    }

    fn compare(&self, other: &Self) -> (r: i8) {
        let c = compare_int(self.sort_order, other.sort_order);
        if c != 0 {
            return c;
        }
        let c = compare_text(self.name.as_str(), other.name.as_str());
        if c != 0 {
            return c;
        }
        compare_text(self.id.as_str(), other.id.as_str())
    }

    fn stamp(self, now: i64) -> (r: Self) {
        Capability {
            id: self.id,
            name: self.name,
            description: self.description,
            capability_type: self.capability_type,
            parent_id: self.parent_id,
            colour: self.colour,
            sort_order: self.sort_order,
            created_at: now,
            updated_at: now,
        }
    }

    fn revise(&self, incoming: Self, now: i64) -> (r: Self) {
        Capability {
            id: incoming.id,
            name: incoming.name,
            description: incoming.description,
            capability_type: incoming.capability_type,
            parent_id: incoming.parent_id,
            colour: incoming.colour,
            sort_order: incoming.sort_order,
            created_at: self.created_at,
            updated_at: now,
        }
    }

    fn duplicate(&self) -> (r: Self) {
        Capability {
            id: self.id.clone(),
            name: self.name.clone(),
            description: copy_opt_text(&self.description),
            capability_type: self.capability_type.clone(),
            parent_id: copy_opt_text(&self.parent_id),
            colour: copy_opt_text(&self.colour),
            sort_order: self.sort_order,
            created_at: self.created_at,
            updated_at: self.updated_at,
        }
    }

    proof fn lemma_timestamps(&self, incoming: &Self, now: i64) {
    }

    proof fn lemma_order(a: &Self, b: &Self, c: &Self) {
        lemma_text_triple(a.name@, b.name@, c.name@);
        lemma_text_triple(a.id@, b.id@, c.id@);
    }
}

impl Record for SystemRow {
    open spec fn key(&self) -> Seq<char> {
        self.id@
    }

    open spec fn scope(&self) -> Option<Seq<char>> {
        opt_view(self.capability_id)
    }

    open spec fn order(&self, other: &Self) -> int {
        then_cmp(text_cmp(self.name@, other.name@), text_cmp(self.id@, other.id@))
    }

    open spec fn created(&self) -> i64 {
        self.created_at
    }

    open spec fn updated(&self) -> i64 {
        self.updated_at
    }

    open spec fn stamped(&self, now: i64) -> Self {
        SystemRow {
            id: self.id,
            name: self.name,
            description: self.description,
            owner: self.owner,
            vendor: self.vendor,
            technology_stack: self.technology_stack,
            lifecycle_stage: self.lifecycle_stage,
            criticality: self.criticality,
            support_end_date: self.support_end_date,
            extended_support_end_date: self.extended_support_end_date,
            capability_id: self.capability_id,
            created_at: now,
            updated_at: now,
        }
    }

    open spec fn revised(&self, incoming: &Self, now: i64) -> Self {
        SystemRow {
            id: incoming.id,
            name: incoming.name,
            description: incoming.description,
            owner: incoming.owner,
            vendor: incoming.vendor,
            technology_stack: incoming.technology_stack,
            lifecycle_stage: incoming.lifecycle_stage,
            criticality: incoming.criticality,
            support_end_date: incoming.support_end_date,
            extended_support_end_date: incoming.extended_support_end_date,
            capability_id: incoming.capability_id,
            created_at: self.created_at,
            updated_at: now,
        }
    }

    fn id(&self) -> (r: &String) {
        &self.id
    }

    fn in_scope(&self, parent: &str) -> (r: bool) {
        match &self.capability_id {
            Some(p) => same_text(p.as_str(), parent),
            None => false,
        }
    }

    fn compare(&self, other: &Self) -> (r: i8) {
        let c = compare_text(self.name.as_str(), other.name.as_str());
        if c != 0 {
            return c;
        }
        compare_text(self.id.as_str(), other.id.as_str())
    }

    fn stamp(self, now: i64) -> (r: Self) {
        SystemRow {
            id: self.id,
            name: self.name,
            description: self.description,
            owner: self.owner,
            vendor: self.vendor,
            technology_stack: self.technology_stack,
            lifecycle_stage: self.lifecycle_stage,
            criticality: self.criticality,
            support_end_date: self.support_end_date,
            extended_support_end_date: self.extended_support_end_date,
            capability_id: self.capability_id,
            created_at: now,
            updated_at: now,
        }
    }

    fn revise(&self, incoming: Self, now: i64) -> (r: Self) {
        SystemRow {
            id: incoming.id,
            name: incoming.name,
            description: incoming.description,
            owner: incoming.owner,
            vendor: incoming.vendor,
            technology_stack: incoming.technology_stack,
            lifecycle_stage: incoming.lifecycle_stage,
            criticality: incoming.criticality,
            support_end_date: incoming.support_end_date,
            extended_support_end_date: incoming.extended_support_end_date,
            capability_id: incoming.capability_id,
            created_at: self.created_at,
            updated_at: now,
        }
    }

    fn duplicate(&self) -> (r: Self) {
        SystemRow {
            id: self.id.clone(),
            name: self.name.clone(),
            description: copy_opt_text(&self.description),
            owner: copy_opt_text(&self.owner),
            vendor: copy_opt_text(&self.vendor),
            technology_stack: copy_opt_text(&self.technology_stack),
            lifecycle_stage: self.lifecycle_stage.clone(),
            criticality: self.criticality.clone(),
            support_end_date: copy_opt_text(&self.support_end_date),
            extended_support_end_date: copy_opt_text(&self.extended_support_end_date),
            capability_id: copy_opt_text(&self.capability_id),
            created_at: self.created_at,
            updated_at: self.updated_at,
        }
    }

    proof fn lemma_timestamps(&self, incoming: &Self, now: i64) {
    }

    proof fn lemma_order(a: &Self, b: &Self, c: &Self) {
        lemma_text_triple(a.name@, b.name@, c.name@);
        lemma_text_triple(a.id@, b.id@, c.id@);
    }
}

impl Record for Initiative {
    open spec fn key(&self) -> Seq<char> {
        self.id@
    }

    open spec fn scope(&self) -> Option<Seq<char>> {
        Some(self.scenario_id@)
    }

    open spec fn order(&self, other: &Self) -> int {
        then_cmp(opt_text_cmp(opt_view(self.start_date), opt_view(other.start_date)), then_cmp(text_cmp(self.name@, other.name@), text_cmp(self.id@, other.id@)))
    }

    open spec fn created(&self) -> i64 {
        self.created_at
    }

    open spec fn updated(&self) -> i64 {
        self.updated_at
    }

    open spec fn stamped(&self, now: i64) -> Self {
        Initiative {
            id: self.id,
            name: self.name,
            description: self.description,
            initiative_type: self.initiative_type,
            status: self.status,
            start_date: self.start_date,
            end_date: self.end_date,
            effort_estimate: self.effort_estimate,
            effort_uncertainty: self.effort_uncertainty,
            cost_estimate: self.cost_estimate,
            cost_uncertainty: self.cost_uncertainty,
            priority: self.priority,
            scenario_id: self.scenario_id,
            created_at: now,
            updated_at: now,
        }
    }

    open spec fn revised(&self, incoming: &Self, now: i64) -> Self {
        Initiative {
            id: incoming.id,
            name: incoming.name,
            description: incoming.description,
            initiative_type: incoming.initiative_type,
            status: incoming.status,
            start_date: incoming.start_date,
            end_date: incoming.end_date,
            effort_estimate: incoming.effort_estimate,
            effort_uncertainty: incoming.effort_uncertainty,
            cost_estimate: incoming.cost_estimate,
            cost_uncertainty: incoming.cost_uncertainty,
            priority: incoming.priority,
            scenario_id: incoming.scenario_id,
            created_at: self.created_at,
            updated_at: now,
        }
    }

    fn id(&self) -> (r: &String) {
        &self.id
    }

    fn in_scope(&self, parent: &str) -> (r: bool) {
        same_text(self.scenario_id.as_str(), parent)
    }

    fn compare(&self, other: &Self) -> (r: i8) {
        let c = compare_opt_text(&self.start_date, &other.start_date);
        if c != 0 {
            return c;
        }
        let c = compare_text(self.name.as_str(), other.name.as_str());
        if c != 0 {
            return c;
        }
        compare_text(self.id.as_str(), other.id.as_str())
    }

    fn stamp(self, now: i64) -> (r: Self) {
        Initiative {
            id: self.id,
            name: self.name,
            description: self.description,
            initiative_type: self.initiative_type,
            status: self.status,
            start_date: self.start_date,
            end_date: self.end_date,
            effort_estimate: self.effort_estimate,
            effort_uncertainty: self.effort_uncertainty,
            cost_estimate: self.cost_estimate,
            cost_uncertainty: self.cost_uncertainty,
            priority: self.priority,
            scenario_id: self.scenario_id,
            created_at: now,
            updated_at: now,
        }
    }

    fn revise(&self, incoming: Self, now: i64) -> (r: Self) {
        Initiative {
            id: incoming.id,
            name: incoming.name,
            description: incoming.description,
            initiative_type: incoming.initiative_type,
            status: incoming.status,
            start_date: incoming.start_date,
            end_date: incoming.end_date,
            effort_estimate: incoming.effort_estimate,
            effort_uncertainty: incoming.effort_uncertainty,
            cost_estimate: incoming.cost_estimate,
            cost_uncertainty: incoming.cost_uncertainty,
            priority: incoming.priority,
            scenario_id: incoming.scenario_id,
            created_at: self.created_at,
            updated_at: now,
        }
    }

    fn duplicate(&self) -> (r: Self) {
        Initiative {
            id: self.id.clone(),
            name: self.name.clone(),
            description: copy_opt_text(&self.description),
            initiative_type: self.initiative_type.clone(),
            status: self.status.clone(),
            start_date: copy_opt_text(&self.start_date),
            end_date: copy_opt_text(&self.end_date),
            effort_estimate: self.effort_estimate,
            effort_uncertainty: self.effort_uncertainty,
            cost_estimate: self.cost_estimate,
            cost_uncertainty: self.cost_uncertainty,
            priority: self.priority,
            scenario_id: self.scenario_id.clone(),
            created_at: self.created_at,
            updated_at: self.updated_at,
        }
    }

    proof fn lemma_timestamps(&self, incoming: &Self, now: i64) {
    }

    proof fn lemma_order(a: &Self, b: &Self, c: &Self) {
        lemma_opt_text_triple(opt_view(a.start_date), opt_view(b.start_date), opt_view(c.start_date));
        lemma_text_triple(a.name@, b.name@, c.name@);
        lemma_text_triple(a.id@, b.id@, c.id@);
    }
}

impl Record for Scenario {
    open spec fn key(&self) -> Seq<char> {
        self.id@
    }

    open spec fn scope(&self) -> Option<Seq<char>> {
        None
    }

    open spec fn order(&self, other: &Self) -> int {
        then_cmp(flag_first_cmp(self.is_baseline, other.is_baseline), then_cmp(text_cmp(self.name@, other.name@), text_cmp(self.id@, other.id@)))
    }

    open spec fn created(&self) -> i64 {
        self.created_at
    }

    open spec fn updated(&self) -> i64 {
        self.updated_at
    }

    open spec fn stamped(&self, now: i64) -> Self {
        Scenario {
            id: self.id,
            name: self.name,
            description: self.description,
            scenario_type: self.scenario_type,
            is_baseline: self.is_baseline,
            parent_scenario_id: self.parent_scenario_id,
            created_at: now,
            updated_at: now,
        }
    }

    open spec fn revised(&self, incoming: &Self, now: i64) -> Self {
        Scenario {
            id: incoming.id,
            name: incoming.name,
            description: incoming.description,
            scenario_type: incoming.scenario_type,
            is_baseline: self.is_baseline,
            parent_scenario_id: incoming.parent_scenario_id,
            created_at: self.created_at,
            updated_at: now,
        }
    }

    fn id(&self) -> (r: &String) {
        &self.id
    }

    fn in_scope(&self, parent: &str) -> (r: bool) {
        false
    }

    fn compare(&self, other: &Self) -> (r: i8) {
        let c = compare_flag_first(self.is_baseline, other.is_baseline);
        if c != 0 {
            return c;
        }
        let c = compare_text(self.name.as_str(), other.name.as_str());
        if c != 0 {
            return c;
        }
        compare_text(self.id.as_str(), other.id.as_str())
    }

    fn stamp(self, now: i64) -> (r: Self) {
        Scenario {
            id: self.id,
            name: self.name,
            description: self.description,
            scenario_type: self.scenario_type,
            is_baseline: self.is_baseline,
            parent_scenario_id: self.parent_scenario_id,
            created_at: now,
            updated_at: now,
        }
    }

    fn revise(&self, incoming: Self, now: i64) -> (r: Self) {
        Scenario {
            id: incoming.id,
            name: incoming.name,
            description: incoming.description,
            scenario_type: incoming.scenario_type,
            is_baseline: self.is_baseline,
            parent_scenario_id: incoming.parent_scenario_id,
            created_at: self.created_at,
            updated_at: now,
        }
    }

    fn duplicate(&self) -> (r: Self) {
        Scenario {
            id: self.id.clone(),
            name: self.name.clone(),
            description: copy_opt_text(&self.description),
            scenario_type: self.scenario_type.clone(),
            is_baseline: self.is_baseline,
            parent_scenario_id: copy_opt_text(&self.parent_scenario_id),
            created_at: self.created_at,
            updated_at: self.updated_at,
        }
    }

    proof fn lemma_timestamps(&self, incoming: &Self, now: i64) {
    }

    proof fn lemma_order(a: &Self, b: &Self, c: &Self) {
        lemma_text_triple(a.name@, b.name@, c.name@);
        lemma_text_triple(a.id@, b.id@, c.id@);
    }
}

impl Record for ResourcePool {
    open spec fn key(&self) -> Seq<char> {
        self.id@
    }

    open spec fn scope(&self) -> Option<Seq<char>> {
        None
    }

    open spec fn order(&self, other: &Self) -> int {
        then_cmp(text_cmp(self.name@, other.name@), text_cmp(self.id@, other.id@))
    }

    open spec fn created(&self) -> i64 {
        self.created_at
    }

    open spec fn updated(&self) -> i64 {
        self.updated_at
    }

    open spec fn stamped(&self, now: i64) -> Self {
        ResourcePool {
            id: self.id,
            name: self.name,
            description: self.description,
            capacity_per_period: self.capacity_per_period,
            capacity_unit: self.capacity_unit,
            period_type: self.period_type,
            colour: self.colour,
            created_at: now,
            updated_at: now,
        }
    }

    open spec fn revised(&self, incoming: &Self, now: i64) -> Self {
        ResourcePool {
            id: incoming.id,
            name: incoming.name,
            description: incoming.description,
            capacity_per_period: incoming.capacity_per_period,
            capacity_unit: incoming.capacity_unit,
            period_type: incoming.period_type,
            colour: incoming.colour,
            created_at: self.created_at,
            updated_at: now,
        }
    }

    fn id(&self) -> (r: &String) {
        &self.id
    }

    fn in_scope(&self, parent: &str) -> (r: bool) {
        false
    }

    fn compare(&self, other: &Self) -> (r: i8) {
        let c = compare_text(self.name.as_str(), other.name.as_str());
        if c != 0 {
            return c;
        }
        compare_text(self.id.as_str(), other.id.as_str())
    }

    fn stamp(self, now: i64) -> (r: Self) {
        ResourcePool {
            id: self.id,
            name: self.name,
            description: self.description,
            capacity_per_period: self.capacity_per_period,
            capacity_unit: self.capacity_unit,
            period_type: self.period_type,
            colour: self.colour,
            created_at: now,
            updated_at: now,
        }
    }

    fn revise(&self, incoming: Self, now: i64) -> (r: Self) {
        ResourcePool {
            id: incoming.id,
            name: incoming.name,
            description: incoming.description,
            capacity_per_period: incoming.capacity_per_period,
            capacity_unit: incoming.capacity_unit,
            period_type: incoming.period_type,
            colour: incoming.colour,
            created_at: self.created_at,
            updated_at: now,
        }
    }

    fn duplicate(&self) -> (r: Self) {
        ResourcePool {
            id: self.id.clone(),
            name: self.name.clone(),
            description: copy_opt_text(&self.description),
            capacity_per_period: self.capacity_per_period,
            capacity_unit: copy_opt_text(&self.capacity_unit),
            period_type: copy_opt_text(&self.period_type),
            colour: copy_opt_text(&self.colour),
            created_at: self.created_at,
            updated_at: self.updated_at,
        }
    }

    proof fn lemma_timestamps(&self, incoming: &Self, now: i64) {
    }

    proof fn lemma_order(a: &Self, b: &Self, c: &Self) {
        lemma_text_triple(a.name@, b.name@, c.name@);
        lemma_text_triple(a.id@, b.id@, c.id@);
    }
}

impl Record for ResourceRow {
    open spec fn key(&self) -> Seq<char> {
        self.id@
    }

    open spec fn scope(&self) -> Option<Seq<char>> {
        opt_view(self.resource_pool_id)
    }

    open spec fn order(&self, other: &Self) -> int {
        then_cmp(text_cmp(self.name@, other.name@), text_cmp(self.id@, other.id@))
    }

    open spec fn created(&self) -> i64 {
        self.created_at
    }

    open spec fn updated(&self) -> i64 {
        self.updated_at
    }

    open spec fn stamped(&self, now: i64) -> Self {
        ResourceRow {
            id: self.id,
            name: self.name,
            role: self.role,
            skills: self.skills,
            availability: self.availability,
            resource_pool_id: self.resource_pool_id,
            start_date: self.start_date,
            end_date: self.end_date,
            created_at: now,
            updated_at: now,
        }
    }

    open spec fn revised(&self, incoming: &Self, now: i64) -> Self {
        ResourceRow {
            id: incoming.id,
            name: incoming.name,
            role: incoming.role,
            skills: incoming.skills,
            availability: incoming.availability,
            resource_pool_id: incoming.resource_pool_id,
            start_date: incoming.start_date,
            end_date: incoming.end_date,
            created_at: self.created_at,
            updated_at: now,
        }
    }

    fn id(&self) -> (r: &String) {
        &self.id
    }

    fn in_scope(&self, parent: &str) -> (r: bool) {
        match &self.resource_pool_id {
            Some(p) => same_text(p.as_str(), parent),
            None => false,
        }
    }

    fn compare(&self, other: &Self) -> (r: i8) {
        let c = compare_text(self.name.as_str(), other.name.as_str());
        if c != 0 {
            return c;
        }
        compare_text(self.id.as_str(), other.id.as_str())
    }

    fn stamp(self, now: i64) -> (r: Self) {
        ResourceRow {
            id: self.id,
            name: self.name,
            role: self.role,
            skills: self.skills,
            availability: self.availability,
            resource_pool_id: self.resource_pool_id,
            start_date: self.start_date,
            end_date: self.end_date,
            created_at: now,
            updated_at: now,
        }
    }

    fn revise(&self, incoming: Self, now: i64) -> (r: Self) {
        ResourceRow {
            id: incoming.id,
            name: incoming.name,
            role: incoming.role,
            skills: incoming.skills,
            availability: incoming.availability,
            resource_pool_id: incoming.resource_pool_id,
            start_date: incoming.start_date,
            end_date: incoming.end_date,
            created_at: self.created_at,
            updated_at: now,
        }
    }

    fn duplicate(&self) -> (r: Self) {
        ResourceRow {
            id: self.id.clone(),
            name: self.name.clone(),
            role: copy_opt_text(&self.role),
            skills: copy_opt_text(&self.skills),
            availability: self.availability,
            resource_pool_id: copy_opt_text(&self.resource_pool_id),
            start_date: copy_opt_text(&self.start_date),
            end_date: copy_opt_text(&self.end_date),
            created_at: self.created_at,
            updated_at: self.updated_at,
        }
    }

    proof fn lemma_timestamps(&self, incoming: &Self, now: i64) {
    }

    proof fn lemma_order(a: &Self, b: &Self, c: &Self) {
        lemma_text_triple(a.name@, b.name@, c.name@);
        lemma_text_triple(a.id@, b.id@, c.id@);
    }
}

impl Record for Constraint {
    open spec fn key(&self) -> Seq<char> {
        self.id@
    }

    open spec fn scope(&self) -> Option<Seq<char>> {
        None
    }

    open spec fn order(&self, other: &Self) -> int {
        then_cmp(text_cmp(self.name@, other.name@), text_cmp(self.id@, other.id@))
    }

    open spec fn created(&self) -> i64 {
        self.created_at
    }

    open spec fn updated(&self) -> i64 {
        self.updated_at
    }

    open spec fn stamped(&self, now: i64) -> Self {
        Constraint {
            id: self.id,
            name: self.name,
            description: self.description,
            constraint_type: self.constraint_type,
            hardness: self.hardness,
            effective_date: self.effective_date,
            expiry_date: self.expiry_date,
            created_at: now,
            updated_at: now,
        }
    }

    open spec fn revised(&self, incoming: &Self, now: i64) -> Self {
        Constraint {
            id: incoming.id,
            name: incoming.name,
            description: incoming.description,
            constraint_type: incoming.constraint_type,
            hardness: incoming.hardness,
            effective_date: incoming.effective_date,
            expiry_date: incoming.expiry_date,
            created_at: self.created_at,
            updated_at: now,
        }
    }

    fn id(&self) -> (r: &String) {
        &self.id
    }

    fn in_scope(&self, parent: &str) -> (r: bool) {
        false
    }

    fn compare(&self, other: &Self) -> (r: i8) {
        let c = compare_text(self.name.as_str(), other.name.as_str());
        if c != 0 {
            return c;
        }
        compare_text(self.id.as_str(), other.id.as_str())
    }

    fn stamp(self, now: i64) -> (r: Self) {
        Constraint {
            id: self.id,
            name: self.name,
            description: self.description,
            constraint_type: self.constraint_type,
            hardness: self.hardness,
            effective_date: self.effective_date,
            expiry_date: self.expiry_date,
            created_at: now,
            updated_at: now,
        }
    }

    fn revise(&self, incoming: Self, now: i64) -> (r: Self) {
        Constraint {
            id: incoming.id,
            name: incoming.name,
            description: incoming.description,
            constraint_type: incoming.constraint_type,
            hardness: incoming.hardness,
            effective_date: incoming.effective_date,
            expiry_date: incoming.expiry_date,
            created_at: self.created_at,
            updated_at: now,
        }
    }

    fn duplicate(&self) -> (r: Self) {
        Constraint {
            id: self.id.clone(),
            name: self.name.clone(),
            description: copy_opt_text(&self.description),
            constraint_type: self.constraint_type.clone(),
            hardness: self.hardness.clone(),
            effective_date: copy_opt_text(&self.effective_date),
            expiry_date: copy_opt_text(&self.expiry_date),
            created_at: self.created_at,
            updated_at: self.updated_at,
        }
    }

    proof fn lemma_timestamps(&self, incoming: &Self, now: i64) {
    }

    proof fn lemma_order(a: &Self, b: &Self, c: &Self) {
        lemma_text_triple(a.name@, b.name@, c.name@);
        lemma_text_triple(a.id@, b.id@, c.id@);
    }
}

impl Record for FinancialPeriod {
    open spec fn key(&self) -> Seq<char> {
        self.id@
    }

    open spec fn scope(&self) -> Option<Seq<char>> {
        None
    }

    open spec fn order(&self, other: &Self) -> int {
        then_cmp(text_cmp(self.start_date@, other.start_date@), text_cmp(self.id@, other.id@))
    }

    open spec fn created(&self) -> i64 {
        self.created_at
    }

    open spec fn updated(&self) -> i64 {
        self.updated_at
    }

    open spec fn stamped(&self, now: i64) -> Self {
        FinancialPeriod {
            id: self.id,
            name: self.name,
            period_type: self.period_type,
            start_date: self.start_date,
            end_date: self.end_date,
            budget_available: self.budget_available,
            created_at: now,
            updated_at: now,
        }
    }

    open spec fn revised(&self, incoming: &Self, now: i64) -> Self {
        FinancialPeriod {
            id: incoming.id,
            name: incoming.name,
            period_type: incoming.period_type,
            start_date: incoming.start_date,
            end_date: incoming.end_date,
            budget_available: incoming.budget_available,
            created_at: self.created_at,
            updated_at: now,
        }
    }

    fn id(&self) -> (r: &String) {
        &self.id
    }

    fn in_scope(&self, parent: &str) -> (r: bool) {
        false
    }

    fn compare(&self, other: &Self) -> (r: i8) {
        let c = compare_text(self.start_date.as_str(), other.start_date.as_str());
        if c != 0 {
            return c;
        }
        compare_text(self.id.as_str(), other.id.as_str())
    }

    fn stamp(self, now: i64) -> (r: Self) {
        FinancialPeriod {
            id: self.id,
            name: self.name,
            period_type: self.period_type,
            start_date: self.start_date,
            end_date: self.end_date,
            budget_available: self.budget_available,
            created_at: now,
            updated_at: now,
        }
    }

    fn revise(&self, incoming: Self, now: i64) -> (r: Self) {
        FinancialPeriod {
            id: incoming.id,
            name: incoming.name,
            period_type: incoming.period_type,
            start_date: incoming.start_date,
            end_date: incoming.end_date,
            budget_available: incoming.budget_available,
            created_at: self.created_at,
            updated_at: now,
        }
    }

    fn duplicate(&self) -> (r: Self) {
        FinancialPeriod {
            id: self.id.clone(),
            name: self.name.clone(),
            period_type: self.period_type.clone(),
            start_date: self.start_date.clone(),
            end_date: self.end_date.clone(),
            budget_available: self.budget_available,
            created_at: self.created_at,
            updated_at: self.updated_at,
        }
    }

    proof fn lemma_timestamps(&self, incoming: &Self, now: i64) {
    }

    proof fn lemma_order(a: &Self, b: &Self, c: &Self) {
        lemma_text_triple(a.start_date@, b.start_date@, c.start_date@);
        lemma_text_triple(a.id@, b.id@, c.id@);
    }
}

/// A system of the landscape; it supports one capability.
#[derive(Debug, Clone, PartialEq, Eq)]
pub struct System {
    pub id: String,
    pub name: String,
    pub description: Option<String>,
    pub owner: Option<String>,
    pub vendor: Option<String>,
    pub technology_stack: Option<Vec<String>>,
    pub lifecycle_stage: String,
    pub criticality: String,
    pub support_end_date: Option<String>,
    pub extended_support_end_date: Option<String>,
    pub capability_id: Option<String>,
    pub created_at: i64,
    pub updated_at: i64,
}

/// `row` stores `system`: the same fields, with the list as its JSON text.
pub open spec fn holds_system(row: SystemRow, system: System) -> bool {
    &&& row.id == system.id
    &&& row.name == system.name
    &&& row.description == system.description
    &&& row.owner == system.owner
    &&& row.vendor == system.vendor
    &&& row.lifecycle_stage == system.lifecycle_stage
    &&& row.criticality == system.criticality
    &&& row.support_end_date == system.support_end_date
    &&& row.extended_support_end_date == system.extended_support_end_date
    &&& row.capability_id == system.capability_id
    &&& row.created_at == system.created_at
    &&& row.updated_at == system.updated_at
    &&& stores_list(row.technology_stack, opt_texts(system.technology_stack))
}

/// `system` is what reading `row` gives: the same fields, and the list that
/// the stored JSON text was written from.
pub open spec fn read_system(row: SystemRow, system: System) -> bool {
    &&& row.id == system.id
    &&& row.name == system.name
    &&& row.description == system.description
    &&& row.owner == system.owner
    &&& row.vendor == system.vendor
    &&& row.lifecycle_stage == system.lifecycle_stage
    &&& row.criticality == system.criticality
    &&& row.support_end_date == system.support_end_date
    &&& row.extended_support_end_date == system.extended_support_end_date
    &&& row.capability_id == system.capability_id
    &&& row.created_at == system.created_at
    &&& row.updated_at == system.updated_at
    &&& (row.technology_stack is None ==> system.technology_stack is None)
    &&& forall|v: Seq<Seq<char>>| stores_list(row.technology_stack, Some(v)) ==> opt_texts(system.technology_stack) == Some(v)
}

/// The two records agree field by field, the list by its strings.
pub open spec fn same_system(a: System, b: System) -> bool {
    &&& a.id == b.id
    &&& a.name == b.name
    &&& a.description == b.description
    &&& a.owner == b.owner
    &&& a.vendor == b.vendor
    &&& a.lifecycle_stage == b.lifecycle_stage
    &&& a.criticality == b.criticality
    &&& a.support_end_date == b.support_end_date
    &&& a.extended_support_end_date == b.extended_support_end_date
    &&& a.capability_id == b.capability_id
    &&& a.created_at == b.created_at
    &&& a.updated_at == b.updated_at
    &&& opt_texts(a.technology_stack) == opt_texts(b.technology_stack)
}

/// `system` with its timestamps replaced.
pub open spec fn system_with_times(system: System, created: i64, updated: i64) -> System {
    System {
        id: system.id,
        name: system.name,
        description: system.description,
        owner: system.owner,
        vendor: system.vendor,
        technology_stack: system.technology_stack,
        lifecycle_stage: system.lifecycle_stage,
        criticality: system.criticality,
        support_end_date: system.support_end_date,
        extended_support_end_date: system.extended_support_end_date,
        capability_id: system.capability_id,
        created_at: created,
        updated_at: updated,
    }
}

/// Whether a stored list field holds the JSON text of some list.
pub open spec fn system_row_readable(row: SystemRow) -> bool {
    match row.technology_stack {
        None => true,
        Some(t) => exists|v: Seq<Seq<char>>| json_of_list(v) == t@,
    }
}

/// The stored form of a system.
pub fn system_to_row(system: System) -> (row: SystemRow)
    ensures
        holds_system(row, system),
        system_row_readable(row),
{
    let technology_stack = encode_opt_list(&system.technology_stack);
    SystemRow {
        id: system.id,
        name: system.name,
        description: system.description,
        owner: system.owner,
        vendor: system.vendor,
        technology_stack,
        lifecycle_stage: system.lifecycle_stage,
        criticality: system.criticality,
        support_end_date: system.support_end_date,
        extended_support_end_date: system.extended_support_end_date,
        capability_id: system.capability_id,
        created_at: system.created_at,
        updated_at: system.updated_at,
    }
}

/// Reads a system back from its stored form.
pub fn system_from_row(row: &SystemRow) -> (r: System)
    requires
        system_row_readable(*row),
    ensures
        read_system(*row, r),
{
    let technology_stack = match decode_opt_list(&row.technology_stack) {
        Some(list) => list,
        None => {
            proof {
                let v = choose|v: Seq<Seq<char>>| json_of_list(v) == row.technology_stack->Some_0@;
                assert(stores_list(row.technology_stack, Some(v)));
            }
            None
        },
    };
    System {
        id: row.id.clone(),
        name: row.name.clone(),
        description: copy_opt_text(&row.description),
        owner: copy_opt_text(&row.owner),
        vendor: copy_opt_text(&row.vendor),
        technology_stack,
        lifecycle_stage: row.lifecycle_stage.clone(),
        criticality: row.criticality.clone(),
        support_end_date: copy_opt_text(&row.support_end_date),
        extended_support_end_date: copy_opt_text(&row.extended_support_end_date),
        capability_id: copy_opt_text(&row.capability_id),
        created_at: row.created_at,
        updated_at: row.updated_at,
    }
}

/// A person or team that can be assigned work, drawn from a pool.
#[derive(Debug, Clone, PartialEq, Eq)]
pub struct Resource {
    pub id: String,
    pub name: String,
    pub role: Option<String>,
    pub skills: Option<Vec<String>>,
    pub availability: Option<i64>,
    pub resource_pool_id: Option<String>,
    pub start_date: Option<String>,
    pub end_date: Option<String>,
    pub created_at: i64,
    pub updated_at: i64,
}

/// `row` stores `resource`: the same fields, with the list as its JSON text.
pub open spec fn holds_resource(row: ResourceRow, resource: Resource) -> bool {
    &&& row.id == resource.id
    &&& row.name == resource.name
    &&& row.role == resource.role
    &&& row.availability == resource.availability
    &&& row.resource_pool_id == resource.resource_pool_id
    &&& row.start_date == resource.start_date
    &&& row.end_date == resource.end_date
    &&& row.created_at == resource.created_at
    &&& row.updated_at == resource.updated_at
    &&& stores_list(row.skills, opt_texts(resource.skills))
}

/// `resource` is what reading `row` gives: the same fields, and the list that
/// the stored JSON text was written from.
pub open spec fn read_resource(row: ResourceRow, resource: Resource) -> bool {
    &&& row.id == resource.id
    &&& row.name == resource.name
    &&& row.role == resource.role
    &&& row.availability == resource.availability
    &&& row.resource_pool_id == resource.resource_pool_id
    &&& row.start_date == resource.start_date
    &&& row.end_date == resource.end_date
    &&& row.created_at == resource.created_at
    &&& row.updated_at == resource.updated_at
    &&& (row.skills is None ==> resource.skills is None)
    &&& forall|v: Seq<Seq<char>>| stores_list(row.skills, Some(v)) ==> opt_texts(resource.skills) == Some(v)
}

/// The two records agree field by field, the list by its strings.
pub open spec fn same_resource(a: Resource, b: Resource) -> bool {
    &&& a.id == b.id
    &&& a.name == b.name
    &&& a.role == b.role
    &&& a.availability == b.availability
    &&& a.resource_pool_id == b.resource_pool_id
    &&& a.start_date == b.start_date
    &&& a.end_date == b.end_date
    &&& a.created_at == b.created_at
    &&& a.updated_at == b.updated_at
    &&& opt_texts(a.skills) == opt_texts(b.skills)
}

/// `resource` with its timestamps replaced.
pub open spec fn resource_with_times(resource: Resource, created: i64, updated: i64) -> Resource {
    Resource {
        id: resource.id,
        name: resource.name,
        role: resource.role,
        skills: resource.skills,
        availability: resource.availability,
        resource_pool_id: resource.resource_pool_id,
        start_date: resource.start_date,
        end_date: resource.end_date,
        created_at: created,
        updated_at: updated,
    }
}

/// Whether a stored list field holds the JSON text of some list.
pub open spec fn resource_row_readable(row: ResourceRow) -> bool {
    match row.skills {
        None => true,
        Some(t) => exists|v: Seq<Seq<char>>| json_of_list(v) == t@,
    }
}

/// The stored form of a resource.
pub fn resource_to_row(resource: Resource) -> (row: ResourceRow)
    ensures
        holds_resource(row, resource),
        resource_row_readable(row),
{
    let skills = encode_opt_list(&resource.skills);
    ResourceRow {
        id: resource.id,
        name: resource.name,
        role: resource.role,
        skills,
        availability: resource.availability,
        resource_pool_id: resource.resource_pool_id,
        start_date: resource.start_date,
        end_date: resource.end_date,
        created_at: resource.created_at,
        updated_at: resource.updated_at,
    }
}

/// Reads a resource back from its stored form.
pub fn resource_from_row(row: &ResourceRow) -> (r: Resource)
    requires
        resource_row_readable(*row),
    ensures
        read_resource(*row, r),
{
    let skills = match decode_opt_list(&row.skills) {
        Some(list) => list,
        None => {
            proof {
                let v = choose|v: Seq<Seq<char>>| json_of_list(v) == row.skills->Some_0@;
                assert(stores_list(row.skills, Some(v)));
            }
            None
        },
    };
    Resource {
        id: row.id.clone(),
        name: row.name.clone(),
        role: copy_opt_text(&row.role),
        skills,
        availability: row.availability,
        resource_pool_id: copy_opt_text(&row.resource_pool_id),
        start_date: copy_opt_text(&row.start_date),
        end_date: copy_opt_text(&row.end_date),
        created_at: row.created_at,
        updated_at: row.updated_at,
    }
}

} // verus!
