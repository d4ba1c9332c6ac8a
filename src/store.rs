//! The record store: one table per entity, and the operations on them.

use vstd::prelude::*;
use crate::entities::{
    Capability, Constraint, FinancialPeriod, Initiative, Resource, ResourcePool, ResourceRow,
    Scenario, System, SystemRow, holds_resource, holds_system, read_resource, read_system, resource_from_row,
    resource_row_readable, resource_to_row, resource_with_times, same_resource, same_system,
    system_from_row, system_row_readable, system_to_row, system_with_times,
};
use crate::record::{Record, StoreError, created_in, is_listing, keyed, read_from, updated_in};
use crate::table::{Table, scope_view};
use crate::laws::{lemma_resource_round_trip, lemma_system_round_trip};
use crate::text::{opt_view, same_text};

verus! {

/// The id by which the baseline scenario is known.
pub const BASELINE_ID: &'static str = "baseline";

/// The tables of the store.
#[derive(Debug, Clone, Copy, PartialEq, Eq, Structural)]
pub enum Entity {
    Capabilities,
    Systems,
    Initiatives,
    Scenarios,
    ResourcePools,
    Resources,
    Constraints,
    FinancialPeriods,
}

/// The planner's records, one table per entity.
pub struct RecordStore {
    capabilities: Table<Capability>,
    systems: Table<SystemRow>,
    initiatives: Table<Initiative>,
    scenarios: Table<Scenario>,
    resource_pools: Table<ResourcePool>,
    resources: Table<ResourceRow>,
    constraints: Table<Constraint>,
    financial_periods: Table<FinancialPeriod>,
}

impl RecordStore {
    /// The capabilities table, by id.
    pub closed spec fn capabilities_view(&self) -> Map<Seq<char>, Capability> {
        self.capabilities@
    }

    /// The systems table, by id.
    pub closed spec fn systems_view(&self) -> Map<Seq<char>, SystemRow> {
        self.systems@
    }

    /// The initiatives table, by id.
    pub closed spec fn initiatives_view(&self) -> Map<Seq<char>, Initiative> {
        self.initiatives@
    }

    /// The scenarios table, by id.
    pub closed spec fn scenarios_view(&self) -> Map<Seq<char>, Scenario> {
        self.scenarios@
    }

    /// The resource pools table, by id.
    pub closed spec fn resource_pools_view(&self) -> Map<Seq<char>, ResourcePool> {
        self.resource_pools@
    }

    /// The resources table, by id.
    pub closed spec fn resources_view(&self) -> Map<Seq<char>, ResourceRow> {
        self.resources@
    }

    /// The constraints table, by id.
    pub closed spec fn constraints_view(&self) -> Map<Seq<char>, Constraint> {
        self.constraints@
    }

    /// The financial periods table, by id.
    pub closed spec fn financial_periods_view(&self) -> Map<Seq<char>, FinancialPeriod> {
        self.financial_periods@
    }

    /// Every table holds at most one row per id, and every stored list
    /// field holds the JSON text of a list.
    pub closed spec fn wf(&self) -> bool {
        &&& self.capabilities.wf()
        &&& self.systems.wf()
        &&& self.initiatives.wf()
        &&& self.scenarios.wf()
        &&& self.resource_pools.wf()
        &&& self.resources.wf()
        &&& self.constraints.wf()
        &&& self.financial_periods.wf()
        &&& forall|k: Seq<char>| #[trigger] self.systems@.contains_key(k) ==> system_row_readable(self.systems@[k])
        &&& forall|k: Seq<char>| #[trigger] self.resources@.contains_key(k) ==> resource_row_readable(self.resources@[k])
    }

    /// Every row of every table is stored under its own id.
    pub proof fn lemma_keyed(&self)
        requires
            self.wf(),
        ensures
            keyed(self.capabilities_view()),
            keyed(self.systems_view()),
            keyed(self.initiatives_view()),
            keyed(self.scenarios_view()),
            keyed(self.resource_pools_view()),
            keyed(self.resources_view()),
            keyed(self.constraints_view()),
            keyed(self.financial_periods_view()),
    {
        self.capabilities.lemma_keyed();
        self.systems.lemma_keyed();
        self.initiatives.lemma_keyed();
        self.scenarios.lemma_keyed();
        self.resource_pools.lemma_keyed();
        self.resources.lemma_keyed();
        self.constraints.lemma_keyed();
        self.financial_periods.lemma_keyed();
    }

    /// Every table but `e` is the same in `self` as in `before`.
    pub open spec fn others_kept(&self, before: &Self, e: Entity) -> bool {
        &&& (e != Entity::Capabilities ==> self.capabilities_view() == before.capabilities_view())
        &&& (e != Entity::Systems ==> self.systems_view() == before.systems_view())
        &&& (e != Entity::Initiatives ==> self.initiatives_view() == before.initiatives_view())
        &&& (e != Entity::Scenarios ==> self.scenarios_view() == before.scenarios_view())
        &&& (e != Entity::ResourcePools ==> self.resource_pools_view() == before.resource_pools_view())
        &&& (e != Entity::Resources ==> self.resources_view() == before.resources_view())
        &&& (e != Entity::Constraints ==> self.constraints_view() == before.constraints_view())
        &&& (e != Entity::FinancialPeriods ==> self.financial_periods_view() == before.financial_periods_view())
    }

    /// An empty store.
    pub fn new() -> (s: Self)
        ensures
            s.wf(),
            s.capabilities_view() == Map::<Seq<char>, Capability>::empty(),
            s.systems_view() == Map::<Seq<char>, SystemRow>::empty(),
            s.initiatives_view() == Map::<Seq<char>, Initiative>::empty(),
            s.scenarios_view() == Map::<Seq<char>, Scenario>::empty(),
            s.resource_pools_view() == Map::<Seq<char>, ResourcePool>::empty(),
            s.resources_view() == Map::<Seq<char>, ResourceRow>::empty(),
            s.constraints_view() == Map::<Seq<char>, Constraint>::empty(),
            s.financial_periods_view() == Map::<Seq<char>, FinancialPeriod>::empty(),
    {
        RecordStore {
            capabilities: Table::new(),
            systems: Table::new(),
            initiatives: Table::new(),
            scenarios: Table::new(),
            resource_pools: Table::new(),
            resources: Table::new(),
            constraints: Table::new(),
            financial_periods: Table::new(),
        }
    }

    /// The capabilities, by sort order, then name.
    pub fn get_capabilities(&self) -> (r: Vec<Capability>)
        requires
            self.wf(),
        ensures
            is_listing(self.capabilities_view(), None, r@),
    {
        self.capabilities.list(None)
    }

    /// The capability with the given id.
    pub fn get_capability(&self, id: String) -> (r: Result<Capability, StoreError>)
        requires
            self.wf(),
        ensures
            read_from(self.capabilities_view(), id@, r),
    {
        self.capabilities.get(id.as_str())
    }

    /// Adds a capability created at `now` and returns it as stored.
    pub fn create_capability(&mut self, capability: Capability, now: i64) -> (r: Result<Capability, StoreError>)
        requires
            old(self).wf(),
        ensures
            final(self).wf(),
            created_in(old(self).capabilities_view(), final(self).capabilities_view(), capability, now, r),
            final(self).others_kept(old(self), Entity::Capabilities),
    {
        proof {
            capability.lemma_timestamps(&capability, now);
        }
        let row = capability.stamp(now);
        let id = row.id().clone();
        match self.capabilities.insert(row) {
            Ok(()) => {},
            Err(e) => {
                return Err(e);
            },
        }
        self.capabilities.get(id.as_str())
    }

    /// Replaces the capability with the same id, at `now`, and returns it as stored.
    pub fn update_capability(&mut self, capability: Capability, now: i64) -> (r: Result<Capability, StoreError>)
        requires
            old(self).wf(),
        ensures
            final(self).wf(),
            updated_in(old(self).capabilities_view(), final(self).capabilities_view(), capability, now, r),
            final(self).others_kept(old(self), Entity::Capabilities),
    {
        self.capabilities.update(capability, now)
    }

    /// Puts back a capability as it was stored, timestamps included; a
    /// taken id is refused.
    pub fn restore_capability(&mut self, capability: Capability) -> (r: Result<(), StoreError>)
        requires
            old(self).wf(),
        ensures
            final(self).wf(),
            final(self).others_kept(old(self), Entity::Capabilities),
            old(self).capabilities_view().contains_key(capability.id@) ==> r == Err::<(), StoreError>(StoreError::ConstraintViolation) && final(self).capabilities_view() == old(self).capabilities_view(),
            !old(self).capabilities_view().contains_key(capability.id@) ==> r == Ok::<(), StoreError>(()) && final(self).capabilities_view() == old(self).capabilities_view().insert(capability.id@, capability),
    {
        self.capabilities.insert(capability)
    }

    /// Removes the capability with the given id; a missing id is no error.
    pub fn delete_capability(&mut self, id: String) -> (r: Result<(), StoreError>)
        requires
            old(self).wf(),
        ensures
            final(self).wf(),
            r == Ok::<(), StoreError>(()),
            final(self).capabilities_view() == old(self).capabilities_view().remove(id@),
            final(self).others_kept(old(self), Entity::Capabilities),
    {
        self.capabilities.remove(id.as_str());
        Ok(())
    }

    /// The initiatives, by start date (absent first), then name; with a scenario id, only those that carry it.
    pub fn get_initiatives(&self, scenario_id: Option<String>) -> (r: Vec<Initiative>)
        requires
            self.wf(),
        ensures
            is_listing(self.initiatives_view(), opt_view(scenario_id), r@),
    {
        match &scenario_id {
            Some(p) => self.initiatives.list(Some(p.as_str())),
            None => self.initiatives.list(None),
        }
    }

    /// The initiative with the given id.
    pub fn get_initiative(&self, id: String) -> (r: Result<Initiative, StoreError>)
        requires
            self.wf(),
        ensures
            read_from(self.initiatives_view(), id@, r),
    {
        self.initiatives.get(id.as_str())
    }

    /// Adds a initiative created at `now` and returns it as stored.
    pub fn create_initiative(&mut self, initiative: Initiative, now: i64) -> (r: Result<Initiative, StoreError>)
        requires
            old(self).wf(),
        ensures
            final(self).wf(),
            created_in(old(self).initiatives_view(), final(self).initiatives_view(), initiative, now, r),
            final(self).others_kept(old(self), Entity::Initiatives),
    {
        proof {
            initiative.lemma_timestamps(&initiative, now);
        }
        let row = initiative.stamp(now);
        let id = row.id().clone();
        match self.initiatives.insert(row) {
            Ok(()) => {},
            Err(e) => {
                return Err(e);
            },
        }
        self.initiatives.get(id.as_str())
    }

    /// Replaces the initiative with the same id, at `now`, and returns it as stored.
    pub fn update_initiative(&mut self, initiative: Initiative, now: i64) -> (r: Result<Initiative, StoreError>)
        requires
            old(self).wf(),
        ensures
            final(self).wf(),
            updated_in(old(self).initiatives_view(), final(self).initiatives_view(), initiative, now, r),
            final(self).others_kept(old(self), Entity::Initiatives),
    {
        self.initiatives.update(initiative, now)
    }

    /// Puts back a initiative as it was stored, timestamps included; a
    /// taken id is refused.
    pub fn restore_initiative(&mut self, initiative: Initiative) -> (r: Result<(), StoreError>)
        requires
            old(self).wf(),
        ensures
            final(self).wf(),
            final(self).others_kept(old(self), Entity::Initiatives),
            old(self).initiatives_view().contains_key(initiative.id@) ==> r == Err::<(), StoreError>(StoreError::ConstraintViolation) && final(self).initiatives_view() == old(self).initiatives_view(),
            !old(self).initiatives_view().contains_key(initiative.id@) ==> r == Ok::<(), StoreError>(()) && final(self).initiatives_view() == old(self).initiatives_view().insert(initiative.id@, initiative),
    {
        self.initiatives.insert(initiative)
    }

    /// Removes the initiative with the given id; a missing id is no error.
    pub fn delete_initiative(&mut self, id: String) -> (r: Result<(), StoreError>)
        requires
            old(self).wf(),
        ensures
            final(self).wf(),
            r == Ok::<(), StoreError>(()),
            final(self).initiatives_view() == old(self).initiatives_view().remove(id@),
            final(self).others_kept(old(self), Entity::Initiatives),
    {
        self.initiatives.remove(id.as_str());
        Ok(())
    }

    /// The scenarios, baseline first, then by name.
    pub fn get_scenarios(&self) -> (r: Vec<Scenario>)
        requires
            self.wf(),
        ensures
            is_listing(self.scenarios_view(), None, r@),
    {
        self.scenarios.list(None)
    }

    /// The scenario with the given id.
    pub fn get_scenario(&self, id: String) -> (r: Result<Scenario, StoreError>)
        requires
            self.wf(),
        ensures
            read_from(self.scenarios_view(), id@, r),
    {
        self.scenarios.get(id.as_str())
    }

    /// Adds a scenario created at `now` and returns it as stored.
    pub fn create_scenario(&mut self, scenario: Scenario, now: i64) -> (r: Result<Scenario, StoreError>)
        requires
            old(self).wf(),
        ensures
            final(self).wf(),
            created_in(old(self).scenarios_view(), final(self).scenarios_view(), scenario, now, r),
            final(self).others_kept(old(self), Entity::Scenarios),
    {
        proof {
            scenario.lemma_timestamps(&scenario, now);
        }
        let row = scenario.stamp(now);
        let id = row.id().clone();
        match self.scenarios.insert(row) {
            Ok(()) => {},
            Err(e) => {
                return Err(e);
            },
        }
        self.scenarios.get(id.as_str())
    }

    /// Replaces the scenario with the same id, at `now`, and returns it as stored.
    pub fn update_scenario(&mut self, scenario: Scenario, now: i64) -> (r: Result<Scenario, StoreError>)
        requires
            old(self).wf(),
        ensures
            final(self).wf(),
            updated_in(old(self).scenarios_view(), final(self).scenarios_view(), scenario, now, r),
            final(self).others_kept(old(self), Entity::Scenarios),
    {
        self.scenarios.update(scenario, now)
    }

    /// Puts back a scenario as it was stored, timestamps included; a
    /// taken id is refused.
    pub fn restore_scenario(&mut self, scenario: Scenario) -> (r: Result<(), StoreError>)
        requires
            old(self).wf(),
        ensures
            final(self).wf(),
            final(self).others_kept(old(self), Entity::Scenarios),
            old(self).scenarios_view().contains_key(scenario.id@) ==> r == Err::<(), StoreError>(StoreError::ConstraintViolation) && final(self).scenarios_view() == old(self).scenarios_view(),
            !old(self).scenarios_view().contains_key(scenario.id@) ==> r == Ok::<(), StoreError>(()) && final(self).scenarios_view() == old(self).scenarios_view().insert(scenario.id@, scenario),
    {
        self.scenarios.insert(scenario)
    }

    /// Removes the scenario with the given id, unless it is the baseline:
    /// the id `baseline` and a scenario flagged as baseline are refused. A
    /// missing id is no error.
    pub fn delete_scenario(&mut self, id: String) -> (r: Result<(), StoreError>)
        requires
            old(self).wf(),
        ensures
            final(self).wf(),
            final(self).others_kept(old(self), Entity::Scenarios),
            id@ == BASELINE_ID@ ==> r == Err::<(), StoreError>(StoreError::BaselineProtected),
            id@ != BASELINE_ID@ && !old(self).scenarios_view().contains_key(id@) ==> r == Ok::<
                (),
                StoreError,
            >(()) && final(self).scenarios_view() == old(self).scenarios_view(),
            id@ != BASELINE_ID@ && old(self).scenarios_view().contains_key(id@)
                && old(self).scenarios_view()[id@].is_baseline ==> r == Err::<(), StoreError>(
                StoreError::BaselineProtected,
            ),
            r is Err ==> final(self).scenarios_view() == old(self).scenarios_view(),
            r is Ok ==> final(self).scenarios_view() == old(self).scenarios_view().remove(id@),
            r is Ok <==> (id@ != BASELINE_ID@ && !(old(self).scenarios_view().contains_key(id@)
                && old(self).scenarios_view()[id@].is_baseline)),
    {
        if same_text(id.as_str(), BASELINE_ID) {
            return Err(StoreError::BaselineProtected);
        }
        match self.scenarios.get(id.as_str()) {
            Ok(scenario) => {
                if scenario.is_baseline {
                    return Err(StoreError::BaselineProtected);
                }
                self.scenarios.remove(id.as_str());
                Ok(())
            },
            Err(_) => {
                proof {
                    assert(self.scenarios@.remove(id@) =~= self.scenarios@);
                }
                Ok(())
            },
        }
    }

    /// The resource pools, by name.
    pub fn get_resource_pools(&self) -> (r: Vec<ResourcePool>)
        requires
            self.wf(),
        ensures
            is_listing(self.resource_pools_view(), None, r@),
    {
        self.resource_pools.list(None)
    }

    /// The resource pool with the given id.
    pub fn get_resource_pool(&self, id: String) -> (r: Result<ResourcePool, StoreError>)
        requires
            self.wf(),
        ensures
            read_from(self.resource_pools_view(), id@, r),
    {
        self.resource_pools.get(id.as_str())
    }

    /// Adds a resource pool created at `now` and returns it as stored.
    pub fn create_resource_pool(&mut self, pool_data: ResourcePool, now: i64) -> (r: Result<ResourcePool, StoreError>)
        requires
            old(self).wf(),
        ensures
            final(self).wf(),
            created_in(old(self).resource_pools_view(), final(self).resource_pools_view(), pool_data, now, r),
            final(self).others_kept(old(self), Entity::ResourcePools),
    {
        proof {
            pool_data.lemma_timestamps(&pool_data, now);
        }
        let row = pool_data.stamp(now);
        let id = row.id().clone();
        match self.resource_pools.insert(row) {
            Ok(()) => {},
            Err(e) => {
                return Err(e);
            },
        }
        self.resource_pools.get(id.as_str())
    }

    /// Replaces the resource pool with the same id, at `now`, and returns it as stored.
    pub fn update_resource_pool(&mut self, pool_data: ResourcePool, now: i64) -> (r: Result<ResourcePool, StoreError>)
        requires
            old(self).wf(),
        ensures
            final(self).wf(),
            updated_in(old(self).resource_pools_view(), final(self).resource_pools_view(), pool_data, now, r),
            final(self).others_kept(old(self), Entity::ResourcePools),
    {
        self.resource_pools.update(pool_data, now)
    }

    /// Puts back a resource pool as it was stored, timestamps included; a
    /// taken id is refused.
    pub fn restore_resource_pool(&mut self, pool_data: ResourcePool) -> (r: Result<(), StoreError>)
        requires
            old(self).wf(),
        ensures
            final(self).wf(),
            final(self).others_kept(old(self), Entity::ResourcePools),
            old(self).resource_pools_view().contains_key(pool_data.id@) ==> r == Err::<(), StoreError>(StoreError::ConstraintViolation) && final(self).resource_pools_view() == old(self).resource_pools_view(),
            !old(self).resource_pools_view().contains_key(pool_data.id@) ==> r == Ok::<(), StoreError>(()) && final(self).resource_pools_view() == old(self).resource_pools_view().insert(pool_data.id@, pool_data),
    {
        self.resource_pools.insert(pool_data)
    }

    /// Removes the resource pool with the given id; a missing id is no error.
    pub fn delete_resource_pool(&mut self, id: String) -> (r: Result<(), StoreError>)
        requires
            old(self).wf(),
        ensures
            final(self).wf(),
            r == Ok::<(), StoreError>(()),
            final(self).resource_pools_view() == old(self).resource_pools_view().remove(id@),
            final(self).others_kept(old(self), Entity::ResourcePools),
    {
        self.resource_pools.remove(id.as_str());
        Ok(())
    }

    /// The constraints, by name.
    pub fn get_constraints(&self) -> (r: Vec<Constraint>)
        requires
            self.wf(),
        ensures
            is_listing(self.constraints_view(), None, r@),
    {
        self.constraints.list(None)
    }

    /// The constraint with the given id.
    pub fn get_constraint(&self, id: String) -> (r: Result<Constraint, StoreError>)
        requires
            self.wf(),
        ensures
            read_from(self.constraints_view(), id@, r),
    {
        self.constraints.get(id.as_str())
    }

    /// Adds a constraint created at `now` and returns it as stored.
    pub fn create_constraint(&mut self, constraint: Constraint, now: i64) -> (r: Result<Constraint, StoreError>)
        requires
            old(self).wf(),
        ensures
            final(self).wf(),
            created_in(old(self).constraints_view(), final(self).constraints_view(), constraint, now, r),
            final(self).others_kept(old(self), Entity::Constraints),
    {
        proof {
            constraint.lemma_timestamps(&constraint, now);
        }
        let row = constraint.stamp(now);
        let id = row.id().clone();
        match self.constraints.insert(row) {
            Ok(()) => {},
            Err(e) => {
                return Err(e);
            },
        }
        self.constraints.get(id.as_str())
    }

    /// Replaces the constraint with the same id, at `now`, and returns it as stored.
    pub fn update_constraint(&mut self, constraint: Constraint, now: i64) -> (r: Result<Constraint, StoreError>)
        requires
            old(self).wf(),
        ensures
            final(self).wf(),
            updated_in(old(self).constraints_view(), final(self).constraints_view(), constraint, now, r),
            final(self).others_kept(old(self), Entity::Constraints),
    {
        self.constraints.update(constraint, now)
    }

    /// Puts back a constraint as it was stored, timestamps included; a
    /// taken id is refused.
    pub fn restore_constraint(&mut self, constraint: Constraint) -> (r: Result<(), StoreError>)
        requires
            old(self).wf(),
        ensures
            final(self).wf(),
            final(self).others_kept(old(self), Entity::Constraints),
            old(self).constraints_view().contains_key(constraint.id@) ==> r == Err::<(), StoreError>(StoreError::ConstraintViolation) && final(self).constraints_view() == old(self).constraints_view(),
            !old(self).constraints_view().contains_key(constraint.id@) ==> r == Ok::<(), StoreError>(()) && final(self).constraints_view() == old(self).constraints_view().insert(constraint.id@, constraint),
    {
        self.constraints.insert(constraint)
    }

    /// Removes the constraint with the given id; a missing id is no error.
    pub fn delete_constraint(&mut self, id: String) -> (r: Result<(), StoreError>)
        requires
            old(self).wf(),
        ensures
            final(self).wf(),
            r == Ok::<(), StoreError>(()),
            final(self).constraints_view() == old(self).constraints_view().remove(id@),
            final(self).others_kept(old(self), Entity::Constraints),
    {
        self.constraints.remove(id.as_str());
        Ok(())
    }

    /// The financial periods, by start date.
    pub fn get_financial_periods(&self) -> (r: Vec<FinancialPeriod>)
        requires
            self.wf(),
        ensures
            is_listing(self.financial_periods_view(), None, r@),
    {
        self.financial_periods.list(None)
    }

    /// The financial period with the given id.
    pub fn get_financial_period(&self, id: String) -> (r: Result<FinancialPeriod, StoreError>)
        requires
            self.wf(),
        ensures
            read_from(self.financial_periods_view(), id@, r),
    {
        self.financial_periods.get(id.as_str())
    }

    /// Adds a financial period created at `now` and returns it as stored.
    pub fn create_financial_period(&mut self, period: FinancialPeriod, now: i64) -> (r: Result<FinancialPeriod, StoreError>)
        requires
            old(self).wf(),
        ensures
            final(self).wf(),
            created_in(old(self).financial_periods_view(), final(self).financial_periods_view(), period, now, r),
            final(self).others_kept(old(self), Entity::FinancialPeriods),
    {
        proof {
            period.lemma_timestamps(&period, now);
        }
        let row = period.stamp(now);
        let id = row.id().clone();
        match self.financial_periods.insert(row) {
            Ok(()) => {},
            Err(e) => {
                return Err(e);
            },
        }
        self.financial_periods.get(id.as_str())
    }

    /// Replaces the financial period with the same id, at `now`, and returns it as stored.
    pub fn update_financial_period(&mut self, period: FinancialPeriod, now: i64) -> (r: Result<FinancialPeriod, StoreError>)
        requires
            old(self).wf(),
        ensures
            final(self).wf(),
            updated_in(old(self).financial_periods_view(), final(self).financial_periods_view(), period, now, r),
            final(self).others_kept(old(self), Entity::FinancialPeriods),
    {
        self.financial_periods.update(period, now)
    }

    /// Puts back a financial period as it was stored, timestamps included; a
    /// taken id is refused.
    pub fn restore_financial_period(&mut self, period: FinancialPeriod) -> (r: Result<(), StoreError>)
        requires
            old(self).wf(),
        ensures
            final(self).wf(),
            final(self).others_kept(old(self), Entity::FinancialPeriods),
            old(self).financial_periods_view().contains_key(period.id@) ==> r == Err::<(), StoreError>(StoreError::ConstraintViolation) && final(self).financial_periods_view() == old(self).financial_periods_view(),
            !old(self).financial_periods_view().contains_key(period.id@) ==> r == Ok::<(), StoreError>(()) && final(self).financial_periods_view() == old(self).financial_periods_view().insert(period.id@, period),
    {
        self.financial_periods.insert(period)
    }

    /// Removes the financial period with the given id; a missing id is no error.
    pub fn delete_financial_period(&mut self, id: String) -> (r: Result<(), StoreError>)
        requires
            old(self).wf(),
        ensures
            final(self).wf(),
            r == Ok::<(), StoreError>(()),
            final(self).financial_periods_view() == old(self).financial_periods_view().remove(id@),
            final(self).others_kept(old(self), Entity::FinancialPeriods),
    {
        self.financial_periods.remove(id.as_str());
        Ok(())
    }

    fn system_rows(&self, rows: Vec<SystemRow>) -> (r: Vec<System>)
        requires
            self.wf(),
            forall|i: int| 0 <= i < rows@.len() ==> self.systems_view().contains_key(#[trigger] rows@[i].key()) && self.systems_view()[rows@[i].key()] == rows@[i],
        ensures
            r@.len() == rows@.len(),
            forall|i: int| 0 <= i < rows@.len() ==> read_system(#[trigger] rows@[i], r@[i]),
    {
        let mut out: Vec<System> = Vec::new();
        let mut i: usize = 0;
        while i < rows.len()
            invariant
                self.wf(),
                i <= rows@.len(),
                out@.len() == i,
                forall|j: int| 0 <= j < rows@.len() ==> self.systems_view().contains_key(#[trigger] rows@[j].key()) && self.systems_view()[rows@[j].key()] == rows@[j],
                forall|j: int| 0 <= j < i ==> read_system(#[trigger] rows@[j], out@[j]),
            decreases rows@.len() - i,
        {
            proof {
                let k = rows@[i as int].key();
                assert(self.systems@.contains_key(k));
            }
            out.push(system_from_row(&rows[i]));
            i = i + 1;
        }
        out
    }

    /// The systems, by name.
    pub fn get_systems(&self) -> (r: Vec<System>)
        requires
            self.wf(),
        ensures
            exists|rows: Seq<SystemRow>|
                is_listing(self.systems_view(), None::<Seq<char>>, rows) && rows.len() == r@.len() && forall|i: int|
                    0 <= i < rows.len() ==> read_system(#[trigger] rows[i], r@[i]),
    {
        let rows = self.systems.list(None);
        let r = self.system_rows(rows);
        proof {
            assert(is_listing(self.systems_view(), None::<Seq<char>>, rows@));
        }
        r
    }

    /// The systems, by name, only those of the given capability.
    pub fn get_systems_by_capability(&self, capability_id: String) -> (r: Vec<System>)
        requires
            self.wf(),
        ensures
            exists|rows: Seq<SystemRow>|
                is_listing(self.systems_view(), Some(capability_id@), rows) && rows.len() == r@.len() && forall|i: int|
                    0 <= i < rows.len() ==> read_system(#[trigger] rows[i], r@[i]),
    {
        let rows = self.systems.list(Some(capability_id.as_str()));
        let r = self.system_rows(rows);
        proof {
            assert(is_listing(self.systems_view(), Some(capability_id@), rows@));
        }
        r
    }

    /// The system with the given id.
    pub fn get_system(&self, id: String) -> (r: Result<System, StoreError>)
        requires
            self.wf(),
        ensures
            !self.systems_view().contains_key(id@) ==> r == Err::<System, StoreError>(StoreError::NotFound),
            self.systems_view().contains_key(id@) ==> r is Ok && read_system(self.systems_view()[id@], r->Ok_0),
    {
        match self.systems.get(id.as_str()) {
            Ok(row) => Ok(system_from_row(&row)),
            Err(e) => Err(e),
        }
    }

    /// Adds a system created at `now` and returns it as read back.
    pub fn create_system(&mut self, system: System, now: i64) -> (r: Result<System, StoreError>)
        requires
            old(self).wf(),
        ensures
            final(self).wf(),
            final(self).others_kept(old(self), Entity::Systems),
            old(self).systems_view().contains_key(system.id@) ==> r == Err::<System, StoreError>(StoreError::ConstraintViolation) && final(self).systems_view() == old(self).systems_view(),
            !old(self).systems_view().contains_key(system.id@) ==> {
                let row = final(self).systems_view()[system.id@];
                &&& final(self).systems_view() == old(self).systems_view().insert(system.id@, row)
                &&& holds_system(row, system_with_times(system, now, now))
                &&& r is Ok && read_system(row, r->Ok_0)
                &&& same_system(r->Ok_0, system_with_times(system, now, now))
            },
    {
        let ghost input = system;
        let mut system = system;
        system.created_at = now;
        system.updated_at = now;
        let id = system.id.clone();
        let row = system_to_row(system);
        match self.systems.insert(row) {
            Ok(()) => {},
            Err(e) => {
                return Err(e);
            },
        }
        match self.systems.get(id.as_str()) {
            Ok(stored) => {
                let r = system_from_row(&stored);
                proof {
                    lemma_system_round_trip(stored, system_with_times(input, now, now), r);
                }
                Ok(r)
            },
            Err(e) => Err(e),
        }
    }

    /// Replaces the system with the same id, at `now`, and returns it as read back.
    pub fn update_system(&mut self, system: System, now: i64) -> (r: Result<System, StoreError>)
        requires
            old(self).wf(),
        ensures
            final(self).wf(),
            final(self).others_kept(old(self), Entity::Systems),
            !old(self).systems_view().contains_key(system.id@) ==> r == Err::<System, StoreError>(StoreError::NotFound) && final(self).systems_view() == old(self).systems_view(),
            old(self).systems_view().contains_key(system.id@) ==> {
                let row = final(self).systems_view()[system.id@];
                let expected = system_with_times(system, old(self).systems_view()[system.id@].created_at, now);
                &&& final(self).systems_view() == old(self).systems_view().insert(system.id@, row)
                &&& holds_system(row, expected)
                &&& r is Ok && read_system(row, r->Ok_0)
                &&& same_system(r->Ok_0, expected)
            },
    {
        let ghost input = system;
        let id = system.id.clone();
        let row = system_to_row(system);
        match self.systems.update(row, now) {
            Ok(_) => {},
            Err(e) => {
                return Err(e);
            },
        }
        let ghost created = old(self).systems_view()[input.id@].created_at;
        match self.systems.get(id.as_str()) {
            Ok(stored) => {
                let r = system_from_row(&stored);
                proof {
                    lemma_system_round_trip(stored, system_with_times(input, created, now), r);
                }
                Ok(r)
            },
            Err(e) => Err(e),
        }
    }

    /// Puts back a system as it was stored, timestamps included; a taken id is
    /// refused.
    pub fn restore_system(&mut self, system: System) -> (r: Result<(), StoreError>)
        requires
            old(self).wf(),
        ensures
            final(self).wf(),
            final(self).others_kept(old(self), Entity::Systems),
            old(self).systems_view().contains_key(system.id@) ==> r == Err::<(), StoreError>(StoreError::ConstraintViolation) && final(self).systems_view() == old(self).systems_view(),
            !old(self).systems_view().contains_key(system.id@) ==> r == Ok::<(), StoreError>(()) && final(self).systems_view() == old(self).systems_view().insert(system.id@, final(self).systems_view()[system.id@])
                && holds_system(final(self).systems_view()[system.id@], system),
    {
        self.systems.insert(system_to_row(system))
    }

    /// Removes the system with the given id; a missing id is no error.
    pub fn delete_system(&mut self, id: String) -> (r: Result<(), StoreError>)
        requires
            old(self).wf(),
        ensures
            final(self).wf(),
            r == Ok::<(), StoreError>(()),
            final(self).systems_view() == old(self).systems_view().remove(id@),
            final(self).others_kept(old(self), Entity::Systems),
    {
        self.systems.remove(id.as_str());
        Ok(())
    }

    fn resource_rows(&self, rows: Vec<ResourceRow>) -> (r: Vec<Resource>)
        requires
            self.wf(),
            forall|i: int| 0 <= i < rows@.len() ==> self.resources_view().contains_key(#[trigger] rows@[i].key()) && self.resources_view()[rows@[i].key()] == rows@[i],
        ensures
            r@.len() == rows@.len(),
            forall|i: int| 0 <= i < rows@.len() ==> read_resource(#[trigger] rows@[i], r@[i]),
    {
        let mut out: Vec<Resource> = Vec::new();
        let mut i: usize = 0;
        while i < rows.len()
            invariant
                self.wf(),
                i <= rows@.len(),
                out@.len() == i,
                forall|j: int| 0 <= j < rows@.len() ==> self.resources_view().contains_key(#[trigger] rows@[j].key()) && self.resources_view()[rows@[j].key()] == rows@[j],
                forall|j: int| 0 <= j < i ==> read_resource(#[trigger] rows@[j], out@[j]),
            decreases rows@.len() - i,
        {
            proof {
                let k = rows@[i as int].key();
                assert(self.resources@.contains_key(k));
            }
            out.push(resource_from_row(&rows[i]));
            i = i + 1;
        }
        out
    }

    /// The resources, by name; with a pool id, only those of that pool.
    pub fn get_resources(&self, pool_id: Option<String>) -> (r: Vec<Resource>)
        requires
            self.wf(),
        ensures
            exists|rows: Seq<ResourceRow>|
                is_listing(self.resources_view(), opt_view(pool_id), rows) && rows.len() == r@.len() && forall|i: int|
                    0 <= i < rows.len() ==> read_resource(#[trigger] rows[i], r@[i]),
    {
        let rows = match &pool_id {
            Some(p) => self.resources.list(Some(p.as_str())),
            None => self.resources.list(None),
        };
        let r = self.resource_rows(rows);
        proof {
            assert(is_listing(self.resources_view(), opt_view(pool_id), rows@));
        }
        r
    }

    /// The resource with the given id.
    pub fn get_resource(&self, id: String) -> (r: Result<Resource, StoreError>)
        requires
            self.wf(),
        ensures
            !self.resources_view().contains_key(id@) ==> r == Err::<Resource, StoreError>(StoreError::NotFound),
            self.resources_view().contains_key(id@) ==> r is Ok && read_resource(self.resources_view()[id@], r->Ok_0),
    {
        match self.resources.get(id.as_str()) {
            Ok(row) => Ok(resource_from_row(&row)),
            Err(e) => Err(e),
        }
    }

    /// Adds a resource created at `now` and returns it as read back.
    pub fn create_resource(&mut self, resource: Resource, now: i64) -> (r: Result<Resource, StoreError>)
        requires
            old(self).wf(),
        ensures
            final(self).wf(),
            final(self).others_kept(old(self), Entity::Resources),
            old(self).resources_view().contains_key(resource.id@) ==> r == Err::<Resource, StoreError>(StoreError::ConstraintViolation) && final(self).resources_view() == old(self).resources_view(),
            !old(self).resources_view().contains_key(resource.id@) ==> {
                let row = final(self).resources_view()[resource.id@];
                &&& final(self).resources_view() == old(self).resources_view().insert(resource.id@, row)
                &&& holds_resource(row, resource_with_times(resource, now, now))
                &&& r is Ok && read_resource(row, r->Ok_0)
                &&& same_resource(r->Ok_0, resource_with_times(resource, now, now))
            },
    {
        let ghost input = resource;
        let mut resource = resource;
        resource.created_at = now;
        resource.updated_at = now;
        let id = resource.id.clone();
        let row = resource_to_row(resource);
        match self.resources.insert(row) {
            Ok(()) => {},
            Err(e) => {
                return Err(e);
            },
        }
        match self.resources.get(id.as_str()) {
            Ok(stored) => {
                let r = resource_from_row(&stored);
                proof {
                    lemma_resource_round_trip(stored, resource_with_times(input, now, now), r);
                }
                Ok(r)
            },
            Err(e) => Err(e),
        }
    }

    /// Replaces the resource with the same id, at `now`, and returns it as read back.
    pub fn update_resource(&mut self, resource: Resource, now: i64) -> (r: Result<Resource, StoreError>)
        requires
            old(self).wf(),
        ensures
            final(self).wf(),
            final(self).others_kept(old(self), Entity::Resources),
            !old(self).resources_view().contains_key(resource.id@) ==> r == Err::<Resource, StoreError>(StoreError::NotFound) && final(self).resources_view() == old(self).resources_view(),
            old(self).resources_view().contains_key(resource.id@) ==> {
                let row = final(self).resources_view()[resource.id@];
                let expected = resource_with_times(resource, old(self).resources_view()[resource.id@].created_at, now);
                &&& final(self).resources_view() == old(self).resources_view().insert(resource.id@, row)
                &&& holds_resource(row, expected)
                &&& r is Ok && read_resource(row, r->Ok_0)
                &&& same_resource(r->Ok_0, expected)
            },
    {
        let ghost input = resource;
        let id = resource.id.clone();
        let row = resource_to_row(resource);
        match self.resources.update(row, now) {
            Ok(_) => {},
            Err(e) => {
                return Err(e);
            },
        }
        let ghost created = old(self).resources_view()[input.id@].created_at;
        match self.resources.get(id.as_str()) {
            Ok(stored) => {
                let r = resource_from_row(&stored);
                proof {
                    lemma_resource_round_trip(stored, resource_with_times(input, created, now), r);
                }
                Ok(r)
            },
            Err(e) => Err(e),
        }
    }

    /// Puts back a resource as it was stored, timestamps included; a taken id is
    /// refused.
    pub fn restore_resource(&mut self, resource: Resource) -> (r: Result<(), StoreError>)
        requires
            old(self).wf(),
        ensures
            final(self).wf(),
            final(self).others_kept(old(self), Entity::Resources),
            old(self).resources_view().contains_key(resource.id@) ==> r == Err::<(), StoreError>(StoreError::ConstraintViolation) && final(self).resources_view() == old(self).resources_view(),
            !old(self).resources_view().contains_key(resource.id@) ==> r == Ok::<(), StoreError>(()) && final(self).resources_view() == old(self).resources_view().insert(resource.id@, final(self).resources_view()[resource.id@])
                && holds_resource(final(self).resources_view()[resource.id@], resource),
    {
        self.resources.insert(resource_to_row(resource))
    }

    /// Removes the resource with the given id; a missing id is no error.
    pub fn delete_resource(&mut self, id: String) -> (r: Result<(), StoreError>)
        requires
            old(self).wf(),
        ensures
            final(self).wf(),
            r == Ok::<(), StoreError>(()),
            final(self).resources_view() == old(self).resources_view().remove(id@),
            final(self).others_kept(old(self), Entity::Resources),
    {
        self.resources.remove(id.as_str());
        Ok(())
    }

}

} // verus!
