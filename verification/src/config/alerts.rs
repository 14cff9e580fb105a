//! Alerts of the record store.

use super::{Alert, AlertModel, AlertOf, AlertWithId, Config, ConfigModel};
use crate::rows::{
    filter_rows, find_row, keep_where, row_refs, test_of, Borrowed, Except, RowFilter,
};
use crate::text::uppercase_of;
use vstd::prelude::*;

verus! {

impl ConfigModel {
    /// The store without the alerts that have the id.
    pub open spec fn remove_alert(self, id: Seq<char>) -> ConfigModel {
        ConfigModel { alerts: keep_where(self.alerts, |a: AlertModel| a.id != id), ..self }
    }

    /// The store with the first alert of that id switched on or off.
    pub open spec fn toggle_alert(self, id: Seq<char>) -> ConfigModel {
        let i = self.alert_index(id);
        if i < self.alerts.len() {
            ConfigModel {
                alerts: self.alerts.update(
                    i,
                    AlertModel { enabled: !self.alerts[i].enabled, ..self.alerts[i] },
                ),
                ..self
            }
        } else {
            self
        }
    }

    /// The store with the first alert of that id stamped as fired at `now`.
    pub open spec fn mark_triggered(self, id: Seq<char>, now: u64) -> ConfigModel {
        let i = self.alert_index(id);
        if i < self.alerts.len() {
            ConfigModel {
                alerts: self.alerts.update(
                    i,
                    AlertModel { last_triggered: Some(now), ..self.alerts[i] },
                ),
                ..self
            }
        } else {
            self
        }
    }

    /// Whether the symbol has an alert that is switched on.
    pub open spec fn has_active_alerts(self, symbol: Seq<char>) -> bool {
        exists|i: int|
            0 <= i < self.alerts.len() && (#[trigger] self.alerts[i]).symbol == symbol
                && self.alerts[i].enabled
    }
}

impl Config {
    /// The alerts on a symbol, taken in upper case, in their order.
    pub fn alerts_for_symbol(&self, symbol: &str) -> (r: Vec<&Alert>)
        ensures
            r.deep_view() == self@.alerts_for(uppercase_of(symbol@)),
    {
        let symbol = symbol.to_uppercase();
        let mut r = row_refs(&self.alerts);
        let filter = Borrowed { inner: AlertOf { symbol: symbol.as_str(), enabled_only: false } };
        filter_rows(&mut r, &filter);
        proof {
            assert(test_of::<&Alert, Borrowed<AlertOf>>(&filter) =~= (|a: AlertModel|
                a.symbol == symbol@));
        }
        r
    }

    /// Adds an alert at the end.
    pub fn add_alert(&mut self, alert: Alert)
        ensures
            final(self)@ == (ConfigModel { alerts: old(self)@.alerts.push(alert@), ..old(self)@ }),
    {
        let ghost model = alert@;
        self.alerts.push(alert);
        assert(self.alerts.deep_view() =~= old(self)@.alerts.push(model));
    }

    /// Removes the alerts with the given id.
    pub fn remove_alert(&mut self, id: &str)
        ensures
            final(self)@ == old(self)@.remove_alert(id@),
    {
        let filter = Except { inner: AlertWithId { id } };
        filter_rows(&mut self.alerts, &filter);
        proof {
            assert(test_of::<Alert, Except<AlertWithId>>(&filter) =~= (|a: AlertModel| a.id != id@));
        }
    }

    /// Index of the first alert with the given id.
    fn find_alert(&self, id: &str) -> (r: Option<usize>)
        ensures
            match r {
                Some(i) => i == self@.alert_index(id@) && i < self.alerts.len(),
                None => self@.alert_index(id@) == self.alerts.len(),
            },
    {
        let filter = AlertWithId { id };
        let found = find_row(&self.alerts, &filter);
        assert(test_of::<Alert, AlertWithId>(&filter) =~= (|a: AlertModel| a.id == id@));
        found
    }

    /// Switches the first alert with the given id on or off.
    pub fn toggle_alert(&mut self, id: &str)
        ensures
            final(self)@ == old(self)@.toggle_alert(id@),
    {
        if let Some(i) = self.find_alert(id) {
            let enabled = self.alerts[i].enabled;
            self.alerts[i].enabled = !enabled;
            assert(self.alerts.deep_view() =~= old(self)@.alerts.update(
                i as int,
                AlertModel { enabled: !enabled, ..old(self)@.alerts[i as int] },
            ));
        }
    }

    /// Stamps the first alert with the given id as fired at `now`.
    pub fn mark_triggered_at(&mut self, id: &str, now: u64)
        ensures
            final(self)@ == old(self)@.mark_triggered(id@, now),
    {
        if let Some(i) = self.find_alert(id) {
            self.alerts[i].last_triggered = Some(now);
            assert(self.alerts.deep_view() =~= old(self)@.alerts.update(
                i as int,
                AlertModel { last_triggered: Some(now), ..old(self)@.alerts[i as int] },
            ));
        }
    }

    /// Stamps the first alert with the given id as fired now, by the system
    /// clock.
    pub fn mark_triggered(&mut self, id: &str)
        ensures
            exists|now: u64| final(self)@ == old(self)@.mark_triggered(id@, now),
    {
        let now = crate::clock::unix_now();
        self.mark_triggered_at(id, now);
    }

    /// Whether the symbol, taken in upper case, has an alert that is
    /// switched on.
    pub fn has_active_alerts(&self, symbol: &str) -> (r: bool)
        ensures
            r == self@.has_active_alerts(uppercase_of(symbol@)),
    {
        let symbol = symbol.to_uppercase();
        let filter = AlertOf { symbol: symbol.as_str(), enabled_only: true };
        let found = find_row(&self.alerts, &filter);
        proof {
            let alerts = self@.alerts;
            match found {
                Some(i) => {
                    assert(filter.keeps(alerts[i as int]));
                },
                None => {
                    assert forall|k: int| 0 <= k < alerts.len() implies !(alerts[k].symbol
                        == symbol@ && alerts[k].enabled) by {
                        assert(!filter.keeps(alerts[k]));
                    }
                },
            }
        }
        found.is_some()
    }
}

} // verus!
