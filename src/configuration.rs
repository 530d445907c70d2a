use crate::address::SocketAddress;
use crate::application::{views, Application, ApplicationView};
use vstd::prelude::*;

verus! {

/// Settings of the daemon itself.
#[derive(Clone, Copy, Debug, PartialEq, Eq, Structural)]
pub struct CoreConfiguration {
    /// The TCP port that the HTTP listener is bound to.
    pub port: u16,
}

/// One snapshot of the routing table: the daemon's port and the registered
/// applications, in order of registration.
///
/// A snapshot is never edited in place: each change computes the next
/// snapshot from the current one, which the owner then publishes whole.
#[derive(Debug)]
pub struct CurrentConfiguration {
    pub core: CoreConfiguration,
    pub applications: Vec<Application>,
}

/// What a [`CurrentConfiguration`] is, as a mathematical value.
pub ghost struct ConfigurationView {
    pub port: u16,
    pub applications: Seq<ApplicationView>,
}

impl View for CurrentConfiguration {
    type V = ConfigurationView;

    open spec fn view(&self) -> ConfigurationView {
        ConfigurationView { port: self.core.port, applications: views(self.applications@) }
    }
}

/// Why a change to the routing table was refused.
#[derive(Clone, Copy, Debug, PartialEq, Eq, Structural)]
pub enum RegistryError {
    /// An application with that hostname is already registered.
    Conflict,
    /// No application with that hostname is registered.
    NotFound,
}

/// Some application in `apps` has the hostname `hostname`.
pub open spec fn contains_hostname(apps: Seq<ApplicationView>, hostname: Seq<char>) -> bool {
    exists|i: int| 0 <= i < apps.len() && (#[trigger] apps[i]).hostname == hostname
}

/// No two applications in `apps` share a hostname.
pub open spec fn hostnames_unique(apps: Seq<ApplicationView>) -> bool {
    forall|i: int, j: int|
        #![trigger apps[i], apps[j]]
        0 <= i < apps.len() && 0 <= j < apps.len() && i != j ==> apps[i].hostname
            != apps[j].hostname
}

/// `apps` without the applications whose hostname is `hostname`, the others
/// kept in order.
pub open spec fn without_hostname(apps: Seq<ApplicationView>, hostname: Seq<char>) -> Seq<
    ApplicationView,
>
    decreases apps.len(),
{
    if apps.len() == 0 {
        Seq::empty()
    } else {
        let rest = without_hostname(apps.drop_last(), hostname);
        if apps.last().hostname == hostname {
            rest
        } else {
            rest.push(apps.last())
        }
    }
}

/// The address of the first application in `apps` whose hostname is
/// `hostname`, if there is one.
pub open spec fn lookup(apps: Seq<ApplicationView>, hostname: Seq<char>) -> Option<SocketAddress>
    decreases apps.len(),
{
    if apps.len() == 0 {
        None
    } else if apps[0].hostname == hostname {
        Some(apps[0].address)
    } else {
        lookup(apps.drop_first(), hostname)
    }
}

impl ConfigurationView {
    /// The routing table's invariant: hostnames are unique.
    pub open spec fn well_formed(self) -> bool {
        hostnames_unique(self.applications)
    }

    /// The snapshot after registering `application`, when that is allowed.
    pub open spec fn created(self, application: ApplicationView) -> Result<
        ConfigurationView,
        RegistryError,
    > {
        if contains_hostname(self.applications, application.hostname) {
            Err(RegistryError::Conflict)
        } else {
            Ok(
                ConfigurationView {
                    port: self.port,
                    applications: self.applications.push(application),
                },
            )
        }
    }

    /// The snapshot after removing the application named `hostname`, when
    /// there is one.
    pub open spec fn deleted(self, hostname: Seq<char>) -> Result<ConfigurationView, RegistryError> {
        if contains_hostname(self.applications, hostname) {
            Ok(
                ConfigurationView {
                    port: self.port,
                    applications: without_hostname(self.applications, hostname),
                },
            )
        } else {
            Err(RegistryError::NotFound)
        }
    }
}

/// The views of a result that carries a snapshot.
pub open spec fn result_view(r: Result<CurrentConfiguration, RegistryError>) -> Result<
    ConfigurationView,
    RegistryError,
> {
    match r {
        Ok(c) => Ok(c@),
        Err(e) => Err(e),
    }
}

impl CurrentConfiguration {
    /// An empty routing table for the given port.
    pub fn new(core: CoreConfiguration) -> (r: CurrentConfiguration)
        ensures
            r@ == (ConfigurationView { port: core.port, applications: Seq::empty() }),
            r@.well_formed(),
    {
        let r = CurrentConfiguration { core, applications: Vec::new() };
        assert(r@.applications =~= Seq::empty());
        r
    }

    /// Whether an application named `hostname` is registered.
    pub fn contains(&self, hostname: &String) -> (r: bool)
        ensures
            r == contains_hostname(self@.applications, hostname@),
    {
        let mut i: usize = 0;
        while i < self.applications.len()
            invariant
                i <= self.applications@.len(),
                forall|k: int|
                    0 <= k < i ==> (#[trigger] self@.applications[k]).hostname != hostname@,
            decreases self.applications.len() - i,
        {
            if self.applications[i].hostname == *hostname {
                assert(self@.applications[i as int].hostname == hostname@);
                return true;
            }
            i = i + 1;
        }
        false
    }

    /// The address of the application named `hostname`, if one is
    /// registered.
    pub fn find(&self, hostname: &String) -> (r: Option<SocketAddress>)
        ensures
            r == lookup(self@.applications, hostname@),
    {
        let ghost apps = self@.applications;
        assert(apps.subrange(0, apps.len() as int) =~= apps);
        let mut i: usize = 0;
        while i < self.applications.len()
            invariant
                i <= apps.len(),
                apps == self@.applications,
                lookup(apps, hostname@) == lookup(apps.subrange(i as int, apps.len() as int), hostname@),
            decreases self.applications.len() - i,
        {
            let ghost rest = apps.subrange(i as int, apps.len() as int);
            assert(rest[0] == apps[i as int]);
            if self.applications[i].hostname == *hostname {
                return Some(self.applications[i].address);
            }
            assert(rest.drop_first() =~= apps.subrange(i + 1, apps.len() as int));
            i = i + 1;
        }
        None
    }

    /// Whether no two registered applications share a hostname.
    pub fn has_unique_hostnames(&self) -> (r: bool)
        ensures
            r == self@.well_formed(),
    {
        let ghost apps = self@.applications;
        let n = self.applications.len();
        let mut i: usize = 0;
        while i < n
            invariant
                n == apps.len(),
                apps == self@.applications,
                i <= n,
                forall|a: int, b: int|
                    #![trigger apps[a], apps[b]]
                    0 <= a < i && 0 <= b < n && a != b ==> apps[a].hostname != apps[b].hostname,
            decreases n - i,
        {
            let mut j: usize = 0;
            while j < n
                invariant
                    n == apps.len(),
                    apps == self@.applications,
                    i < n,
                    j <= n,
                    forall|a: int, b: int|
                        #![trigger apps[a], apps[b]]
                        0 <= a < i && 0 <= b < n && a != b ==> apps[a].hostname
                            != apps[b].hostname,
                    forall|b: int|
                        #![trigger apps[b]]
                        0 <= b < j && b != i ==> apps[i as int].hostname != apps[b].hostname,
                decreases n - j,
            {
                if j != i && self.applications[i].hostname == self.applications[j].hostname {
                    assert(apps[i as int].hostname == apps[j as int].hostname);
                    return false;
                }
                j = j + 1;
            }
            i = i + 1;
        }
        true
    }

    /// The next snapshot after registering `application`: refused with
    /// `Conflict` when its hostname is taken, otherwise this snapshot with
    /// `application` appended.
    pub fn create(&self, application: Application) -> (r: Result<CurrentConfiguration, RegistryError>)
        ensures
            result_view(r) == self@.created(application@),
    {
        if self.contains(&application.hostname) {
            return Err(RegistryError::Conflict);
        }
        let mut applications = self.applications.clone();
        assert(applications@ =~= self.applications@);
        applications.push(application);
        let next = CurrentConfiguration { core: self.core, applications };
        assert(next@.applications =~= self@.applications.push(application@));
        Ok(next)
    }

    /// The next snapshot after removing the application named `hostname`:
    /// refused with `NotFound` when there is none, otherwise this snapshot
    /// without it.
    pub fn delete(&self, hostname: &String) -> (r: Result<CurrentConfiguration, RegistryError>)
        ensures
            result_view(r) == self@.deleted(hostname@),
    {
        if !self.contains(hostname) {
            return Err(RegistryError::NotFound);
        }
        let ghost apps = self@.applications;
        let mut kept: Vec<Application> = Vec::new();
        let mut i: usize = 0;
        while i < self.applications.len()
            invariant
                i <= apps.len(),
                apps == self@.applications,
                views(kept@) == without_hostname(apps.subrange(0, i as int), hostname@),
            decreases self.applications.len() - i,
        {
            let ghost before = views(kept@);
            assert(apps.subrange(0, i + 1).drop_last() =~= apps.subrange(0, i as int));
            if self.applications[i].hostname != *hostname {
                kept.push(self.applications[i].clone());
                assert(views(kept@) =~= before.push(apps[i as int]));
            } else {
                assert(views(kept@) =~= before);
            }
            i = i + 1;
        }
        assert(apps.subrange(0, apps.len() as int) =~= apps);
        Ok(CurrentConfiguration { core: self.core, applications: kept })
    }
}

/// A change requested of the routing table.
pub ghost enum Operation {
    Create(ApplicationView),
    Delete(Seq<char>),
}

/// The snapshot after `op`: the next one when `op` is accepted, the same one
/// when it is refused.
pub open spec fn apply(c: ConfigurationView, op: Operation) -> ConfigurationView {
    let r = match op {
        Operation::Create(a) => c.created(a),
        Operation::Delete(h) => c.deleted(h),
    };
    match r {
        Ok(next) => next,
        Err(_) => c,
    }
}

/// The snapshot after each of `ops` in turn.
pub open spec fn apply_all(c: ConfigurationView, ops: Seq<Operation>) -> ConfigurationView
    decreases ops.len(),
{
    if ops.len() == 0 {
        c
    } else {
        apply(apply_all(c, ops.drop_last()), ops.last())
    }
}

proof fn lemma_without_hostname_unique(apps: Seq<ApplicationView>, hostname: Seq<char>)
    requires
        hostnames_unique(apps),
    ensures
        hostnames_unique(without_hostname(apps, hostname)),
        forall|x: Seq<char>|
            #[trigger] contains_hostname(without_hostname(apps, hostname), x) ==> contains_hostname(
                apps,
                x,
            ) && x != hostname,
    decreases apps.len(),
{
    if apps.len() > 0 {
        let init = apps.drop_last();
        let last = apps.last();
        assert(hostnames_unique(init)) by {
            assert forall|i: int, j: int|
                0 <= i < init.len() && 0 <= j < init.len() && i != j implies init[i].hostname
                != init[j].hostname by {
                assert(init[i] == apps[i] && init[j] == apps[j]);
            }
        }
        lemma_without_hostname_unique(init, hostname);
        let rest = without_hostname(init, hostname);
        assert forall|x: Seq<char>| #[trigger] contains_hostname(init, x) implies contains_hostname(
            apps,
            x,
        ) by {
            let i = choose|i: int| 0 <= i < init.len() && (#[trigger] init[i]).hostname == x;
            assert(apps[i] == init[i]);
        }
        if last.hostname != hostname {
            assert(!contains_hostname(init, last.hostname)) by {
                if contains_hostname(init, last.hostname) {
                    let i = choose|i: int|
                        0 <= i < init.len() && (#[trigger] init[i]).hostname == last.hostname;
                    assert(apps[i] == init[i]);
                    assert(apps[apps.len() - 1] == last);
                }
            }
            let pushed = rest.push(last);
            assert forall|i: int, j: int|
                0 <= i < pushed.len() && 0 <= j < pushed.len() && i != j implies pushed[i].hostname
                != pushed[j].hostname by {
                if i < rest.len() && j < rest.len() {
                    assert(pushed[i] == rest[i] && pushed[j] == rest[j]);
                } else if i < rest.len() {
                    assert(pushed[i] == rest[i]);
                    assert(contains_hostname(rest, rest[i].hostname));
                } else {
                    assert(pushed[j] == rest[j]);
                    assert(contains_hostname(rest, rest[j].hostname));
                }
            }
            assert forall|x: Seq<char>| #[trigger] contains_hostname(pushed, x) implies contains_hostname(
                apps,
                x,
            ) && x != hostname by {
                let i = choose|i: int| 0 <= i < pushed.len() && (#[trigger] pushed[i]).hostname == x;
                if i < rest.len() {
                    assert(pushed[i] == rest[i]);
                    assert(contains_hostname(rest, x));
                } else {
                    assert(apps[apps.len() - 1] == last);
                }
            }
        }
    }
}

/// Registering an application keeps hostnames unique.
pub proof fn lemma_create_keeps_hostnames_unique(c: ConfigurationView, a: ApplicationView)
    requires
        c.well_formed(),
    ensures
        apply(c, Operation::Create(a)).well_formed(),
{
    if !contains_hostname(c.applications, a.hostname) {
        let apps = c.applications;
        let next = apps.push(a);
        assert forall|i: int, j: int|
            0 <= i < next.len() && 0 <= j < next.len() && i != j implies next[i].hostname
            != next[j].hostname by {
            if i < apps.len() && j < apps.len() {
                assert(next[i] == apps[i] && next[j] == apps[j]);
            } else if i < apps.len() {
                assert(next[i] == apps[i]);
            } else {
                assert(next[j] == apps[j]);
            }
        }
    }
}

/// Removing an application keeps hostnames unique.
pub proof fn lemma_delete_keeps_hostnames_unique(c: ConfigurationView, hostname: Seq<char>)
    requires
        c.well_formed(),
    ensures
        apply(c, Operation::Delete(hostname)).well_formed(),
{
    lemma_without_hostname_unique(c.applications, hostname);
}

/// However the requests to register and remove applications follow one
/// another, no two applications in the routing table share a hostname.
pub proof fn lemma_operations_keep_hostnames_unique(c: ConfigurationView, ops: Seq<Operation>)
    requires
        c.well_formed(),
    ensures
        apply_all(c, ops).well_formed(),
    decreases ops.len(),
{
    if ops.len() > 0 {
        lemma_operations_keep_hostnames_unique(c, ops.drop_last());
        let before = apply_all(c, ops.drop_last());
        match ops.last() {
            Operation::Create(a) => lemma_create_keeps_hostnames_unique(before, a),
            Operation::Delete(h) => lemma_delete_keeps_hostnames_unique(before, h),
        }
    }
}

/// An application is found under its hostname after it was appended to a
/// table that did not hold that hostname.
pub proof fn lemma_lookup_appended(apps: Seq<ApplicationView>, a: ApplicationView)
    requires
        !contains_hostname(apps, a.hostname),
    ensures
        lookup(apps.push(a), a.hostname) == Some(a.address),
    decreases apps.len(),
{
    if apps.len() == 0 {
        assert(apps.push(a)[0] == a);
    } else {
        assert(apps.push(a)[0] == apps[0]);
        assert(apps[0].hostname != a.hostname);
        assert(apps.push(a).drop_first() =~= apps.drop_first().push(a));
        assert(!contains_hostname(apps.drop_first(), a.hostname)) by {
            if contains_hostname(apps.drop_first(), a.hostname) {
                let i = choose|i: int|
                    0 <= i < apps.drop_first().len() && (#[trigger] apps.drop_first()[i]).hostname
                        == a.hostname;
                assert(apps[i + 1] == apps.drop_first()[i]);
            }
        }
        lemma_lookup_appended(apps.drop_first(), a);
    }
}

/// Registering a second application under a hostname just registered fails
/// with `Conflict`, and the first one stays in the table under that
/// hostname, with its address.
pub proof fn lemma_second_create_conflicts(
    c: ConfigurationView,
    first: ApplicationView,
    second: ApplicationView,
)
    requires
        first.hostname == second.hostname,
        c.created(first) is Ok,
    ensures
        c.created(first)->Ok_0.created(second) == Err::<ConfigurationView, RegistryError>(
            RegistryError::Conflict,
        ),
        lookup(c.created(first)->Ok_0.applications, first.hostname) == Some(first.address),
{
    let next = c.created(first)->Ok_0;
    assert(next.applications[c.applications.len() as int] == first);
    assert(contains_hostname(next.applications, second.hostname));
    lemma_lookup_appended(c.applications, first);
}

proof fn lemma_without_absent_hostname(apps: Seq<ApplicationView>, hostname: Seq<char>)
    requires
        !contains_hostname(apps, hostname),
    ensures
        without_hostname(apps, hostname) == apps,
    decreases apps.len(),
{
    if apps.len() > 0 {
        assert(!contains_hostname(apps.drop_last(), hostname)) by {
            if contains_hostname(apps.drop_last(), hostname) {
                let i = choose|i: int|
                    0 <= i < apps.drop_last().len() && (#[trigger] apps.drop_last()[i]).hostname
                        == hostname;
                assert(apps[i] == apps.drop_last()[i]);
            }
        }
        assert(apps[apps.len() - 1] == apps.last());
        lemma_without_absent_hostname(apps.drop_last(), hostname);
        assert(apps.drop_last().push(apps.last()) =~= apps);
    }
}

/// Removing a hostname that is not registered fails with `NotFound`.
pub proof fn lemma_delete_absent_fails(c: ConfigurationView, hostname: Seq<char>)
    requires
        !contains_hostname(c.applications, hostname),
    ensures
        c.deleted(hostname) == Err::<ConfigurationView, RegistryError>(RegistryError::NotFound),
{
}

/// In a table whose hostnames are unique, removing the hostname of the
/// entry at `k` removes exactly that entry and keeps the others in order.
pub proof fn lemma_delete_removes_only_that_entry(c: ConfigurationView, k: int)
    requires
        c.well_formed(),
        0 <= k < c.applications.len(),
    ensures
        c.deleted(c.applications[k].hostname) == Ok::<ConfigurationView, RegistryError>(
            ConfigurationView { port: c.port, applications: c.applications.remove(k) },
        ),
    decreases c.applications.len(),
{
    let apps = c.applications;
    let h = apps[k].hostname;
    assert(contains_hostname(apps, h));
    let init = apps.drop_last();
    let last = apps.last();
    assert(apps[apps.len() - 1] == last);
    assert forall|i: int| 0 <= i < init.len() && i != k implies (#[trigger] init[i]).hostname
        != h by {
        assert(init[i] == apps[i]);
    }
    if k == apps.len() - 1 {
        assert(!contains_hostname(init, h)) by {
            if contains_hostname(init, h) {
                let i = choose|i: int| 0 <= i < init.len() && (#[trigger] init[i]).hostname == h;
            }
        }
        lemma_without_absent_hostname(init, h);
        assert(apps.remove(k) =~= init);
    } else {
        let ci = ConfigurationView { port: c.port, applications: init };
        assert(ci.well_formed()) by {
            assert forall|i: int, j: int|
                0 <= i < init.len() && 0 <= j < init.len() && i != j implies init[i].hostname
                != init[j].hostname by {
                assert(init[i] == apps[i] && init[j] == apps[j]);
            }
        }
        assert(init[k] == apps[k]);
        lemma_delete_removes_only_that_entry(ci, k);
        assert(last.hostname != h);
        assert(init.remove(k).push(last) =~= apps.remove(k));
    }
}

/// `lookup` finds an address exactly when the hostname is registered, and
/// the address it finds belongs to an application with that hostname.
pub proof fn lemma_lookup_registered(apps: Seq<ApplicationView>, hostname: Seq<char>)
    ensures
        lookup(apps, hostname) is Some <==> contains_hostname(apps, hostname),
        lookup(apps, hostname) matches Some(a) ==> exists|i: int|
            0 <= i < apps.len() && (#[trigger] apps[i]).hostname == hostname && apps[i].address
                == a,
    decreases apps.len(),
{
    if apps.len() > 0 {
        let rest = apps.drop_first();
        lemma_lookup_registered(rest, hostname);
        assert forall|i: int| 0 <= i < rest.len() implies #[trigger] rest[i] == apps[i + 1] by {}
        if apps[0].hostname != hostname {
            if contains_hostname(apps, hostname) {
                let i = choose|i: int| 0 <= i < apps.len() && (#[trigger] apps[i]).hostname == hostname;
                assert(rest[i - 1] == apps[i]);
            }
            if lookup(apps, hostname) is Some {
                let i = choose|i: int|
                    0 <= i < rest.len() && (#[trigger] rest[i]).hostname == hostname
                        && rest[i].address == lookup(apps, hostname)->0;
                assert(apps[i + 1] == rest[i]);
            }
        }
    }
}

} // verus!
