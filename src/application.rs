use crate::address::SocketAddress;
use vstd::prelude::*;

verus! {

/// One deployed backend: requests whose `Host` is `hostname` go to `address`.
#[derive(Debug)]
pub struct Application {
    pub hostname: String,
    pub address: SocketAddress,
}

/// What an [`Application`] is, as a mathematical value.
pub ghost struct ApplicationView {
    pub hostname: Seq<char>,
    pub address: SocketAddress,
}

impl View for Application {
    type V = ApplicationView;

    open spec fn view(&self) -> ApplicationView {
        ApplicationView { hostname: self.hostname@, address: self.address }
    }
}

impl Clone for Application {
    fn clone(&self) -> (r: Self)
        ensures
            r == *self,
    {
        Application { hostname: self.hostname.clone(), address: self.address }
    }
}

impl PartialEq for Application {
    fn eq(&self, other: &Application) -> (r: bool) {
        self.hostname == other.hostname && self.address == other.address
    }
}

impl vstd::std_specs::cmp::PartialEqSpecImpl for Application {
    open spec fn obeys_eq_spec() -> bool {
        true
    }

    open spec fn eq_spec(&self, other: &Application) -> bool {
        self@ == other@
    }
}

/// The views of a list of applications.
pub open spec fn views(applications: Seq<Application>) -> Seq<ApplicationView> {
    applications.map_values(|a: Application| a@)
}

} // verus!
