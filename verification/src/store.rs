//! Orchestration of partial loads and stores.
//!
//! The decisions live here, verified: which scopes a load touches, how the
//! fetched payloads are assembled into a partial tree, and which backend
//! writes a store performs for a given tree.  The transport — the backend
//! clients that actually carry the calls — stays outside the library and
//! merely executes these plans.
//!
//! A store writes only the domains that are present in the tree, in a fixed
//! order: software, then users, then storage.  The software backend is called
//! only when a product is actually chosen.  A load populates exactly the
//! requested domains and leaves every other domain absent.

use vstd::prelude::*;
use vstd::string::*;

use crate::install_settings::{
    spec_all_scopes, InstallSettings, InstallSettingsView, Scope, SoftwareSettings,
    SoftwareSettingsView, StorageSettings, StorageSettingsView, UserSettings, UserSettingsView,
    Device,
};
use crate::users::{spec_first_user_of, FirstUser, FirstUserView};

verus! {

/// Ghost form of one backend write.
#[verifier::ext_equal]
pub enum WriteRequestView {
    /// Select the product in the software backend.
    Software { product: Seq<char> },
    /// Write the first-user record in the users backend.
    Users { first_user: FirstUserView },
    /// Have the storage backend calculate a proposal with these settings.
    Storage { candidate_devices: Seq<Seq<char>>, encryption_password: Seq<char>, lvm: bool },
}

/// One write call to one backend, with the payload it carries.
#[derive(Debug)]
pub enum WriteRequest {
    /// Select the product in the software backend.
    Software { product: String },
    /// Write the first-user record in the users backend.
    Users { first_user: FirstUser },
    /// Have the storage backend calculate a proposal with these settings.
    Storage { candidate_devices: Vec<String>, encryption_password: String, lvm: bool },
}

impl View for WriteRequest {
    type V = WriteRequestView;

    open spec fn view(&self) -> WriteRequestView {
        match self {
            WriteRequest::Software { product } => WriteRequestView::Software {
                product: product@,
            },
            WriteRequest::Users { first_user } => WriteRequestView::Users {
                first_user: first_user@,
            },
            WriteRequest::Storage { candidate_devices, encryption_password, lvm } =>
                WriteRequestView::Storage {
                    candidate_devices: candidate_devices.deep_view(),
                    encryption_password: encryption_password@,
                    lvm: *lvm,
                },
        }
    }
}

impl DeepView for WriteRequest {
    type V = WriteRequestView;

    open spec fn deep_view(&self) -> WriteRequestView {
        self.view()
    }
}

/// The writes the software domain asks for: one product selection when a
/// product is chosen, none otherwise.
pub open spec fn spec_software_writes(s: SoftwareSettingsView) -> Seq<WriteRequestView> {
    match s.product {
        Some(p) => seq![WriteRequestView::Software { product: p }],
        None => Seq::empty(),
    }
}

/// The write the users domain asks for.
pub open spec fn spec_users_write(u: UserSettingsView) -> WriteRequestView {
    WriteRequestView::Users { first_user: spec_first_user_of(u) }
}

/// The write the storage domain asks for: absent scalars travel as the
/// backend's defaults.
pub open spec fn spec_storage_write(st: StorageSettingsView) -> WriteRequestView {
    WriteRequestView::Storage {
        candidate_devices: st.devices,
        encryption_password: match st.encryption_password {
            Some(p) => p,
            None => Seq::empty(),
        },
        lvm: match st.lvm {
            Some(b) => b,
            None => false,
        },
    }
}

/// The backend writes a store of `t` performs, in order: software, users,
/// storage.  A domain absent from the tree is never touched.
pub open spec fn spec_store_plan(t: InstallSettingsView) -> Seq<WriteRequestView> {
    (match t.software {
        Some(s) => spec_software_writes(s),
        None => Seq::empty(),
    }) + (match t.user {
        Some(u) => seq![spec_users_write(u)],
        None => Seq::empty(),
    }) + (match t.storage {
        Some(st) => seq![spec_storage_write(st)],
        None => Seq::empty(),
    })
}

/// Copies the device names out of a device list.
fn device_names(devices: &Vec<Device>) -> (r: Vec<String>)
    ensures
        r.deep_view() == devices.deep_view(),
{
    let mut out: Vec<String> = Vec::new();
    let mut i: usize = 0;
    while i < devices.len()
        invariant
            i <= devices@.len(),
            out@.len() == i,
            forall|j: int| 0 <= j < i ==> out@[j] == devices@[j].name,
        decreases devices@.len() - i,
    {
        out.push(devices[i].name.clone());
        i += 1;
    }
    proof {
        assert forall|j: int| 0 <= j < devices@.len() implies out.deep_view()[j]
            == devices.deep_view()[j] by {
            assert(out.deep_view()[j] == out@[j].deep_view());
            assert(devices.deep_view()[j] == devices@[j].deep_view());
        }
        assert(out.deep_view() =~= devices.deep_view());
    }
    out
}

/// Appends one write request, relating the deep views.
fn push_request(plan: &mut Vec<WriteRequest>, request: WriteRequest)
    ensures
        final(plan).deep_view() == old(plan).deep_view().push(request@),
{
    let ghost rv = request@;
    plan.push(request);
    proof {
        assert forall|j: int| 0 <= j < plan.deep_view().len() implies plan.deep_view()[j]
            == old(plan).deep_view().push(rv)[j] by {
            assert(plan.deep_view()[j] == plan@[j].deep_view());
            if j < old(plan)@.len() {
                assert(old(plan).deep_view()[j] == old(plan)@[j].deep_view());
            }
        }
        assert(plan.deep_view() =~= old(plan).deep_view().push(rv));
    }
}

/// The sequence of backend writes that stores the given tree: one write per
/// present domain, in the order software, users, storage.
pub fn store_plan(settings: &InstallSettings) -> (r: Vec<WriteRequest>)
    ensures
        r.deep_view() == spec_store_plan(settings@),
{
    let mut plan: Vec<WriteRequest> = Vec::new();
    match &settings.software {
        Some(software) => match &software.product {
            Some(product) => {
                push_request(&mut plan, WriteRequest::Software { product: product.clone() });
            },
            None => {},
        },
        None => {},
    }
    match &settings.user {
        Some(user) => {
            push_request(&mut plan, WriteRequest::Users { first_user: user.to_first_user() });
        },
        None => {},
    }
    match &settings.storage {
        Some(storage) => {
            let candidate_devices = device_names(&storage.devices);
            let encryption_password = match &storage.encryption_password {
                Some(p) => p.clone(),
                None => String::new(),
            };
            let lvm = match storage.lvm {
                Some(b) => b,
                None => false,
            };
            push_request(
                &mut plan,
                WriteRequest::Storage { candidate_devices, encryption_password, lvm },
            );
        },
        None => {},
    }
    proof {
        assert(plan.deep_view() =~= spec_store_plan(settings@));
    }
    plan
}

/// The scopes a load touches: exactly the requested ones, or all of them.
pub fn load_scopes(only: Option<Vec<Scope>>) -> (r: Vec<Scope>)
    ensures
        r@ == match only {
            Some(scopes) => scopes@,
            None => spec_all_scopes(),
        },
{
    match only {
        Some(scopes) => scopes,
        None => Scope::all(),
    }
}

/// Membership of a scope in a scope list.
pub fn scopes_contain(scopes: &Vec<Scope>, scope: Scope) -> (r: bool)
    ensures
        r == scopes@.contains(scope),
{
    let mut i: usize = 0;
    while i < scopes.len()
        invariant
            i <= scopes@.len(),
            forall|j: int| 0 <= j < i ==> scopes@[j] != scope,
        decreases scopes@.len() - i,
    {
        if scopes[i] == scope {
            return true;
        }
        i += 1;
    }
    false
}

/// The tree a load of `scopes` assembles: each requested domain carries the
/// payload its backend returned, every other domain stays absent.
pub open spec fn spec_assembled(
    scopes: Seq<Scope>,
    u: UserSettingsView,
    s: SoftwareSettingsView,
    st: StorageSettingsView,
) -> InstallSettingsView {
    InstallSettingsView {
        user: if scopes.contains(Scope::Users) {
            Some(u)
        } else {
            None
        },
        software: if scopes.contains(Scope::Software) {
            Some(s)
        } else {
            None
        },
        storage: if scopes.contains(Scope::Storage) {
            Some(st)
        } else {
            None
        },
    }
}

/// Assembles the tree a load returns: exactly the requested domains are
/// present, carrying the payloads their backends returned.
pub fn assemble_loaded(
    scopes: &Vec<Scope>,
    user: UserSettings,
    software: SoftwareSettings,
    storage: StorageSettings,
) -> (r: InstallSettings)
    ensures
        r@ == spec_assembled(scopes@, user@, software@, storage@),
{
    InstallSettings {
        user: if scopes_contain(scopes, Scope::Users) {
            Some(user)
        } else {
            None
        },
        software: if scopes_contain(scopes, Scope::Software) {
            Some(software)
        } else {
            None
        },
        storage: if scopes_contain(scopes, Scope::Storage) {
            Some(storage)
        } else {
            None
        },
    }
}

impl SoftwareSettings {
    /// The software section a load builds from the backend's selected
    /// product.
    pub fn from_product(product: String) -> (r: Self)
        ensures
            r@ == (SoftwareSettingsView { product: Some(product@) }),
    {
        SoftwareSettings { product: Some(product) }
    }
}

// ------------------------------------------------------------------
// Load and store laws
// ------------------------------------------------------------------

/// The scope a write addresses.
pub open spec fn spec_write_scope(w: WriteRequestView) -> Scope {
    match w {
        WriteRequestView::Software { .. } => Scope::Software,
        WriteRequestView::Users { .. } => Scope::Users,
        WriteRequestView::Storage { .. } => Scope::Storage,
    }
}

/// Law: a store stays within the defined scopes.  Every write of the plan
/// addresses a domain that is present in the tree; a domain absent from the
/// tree is never touched.
pub proof fn lemma_store_plan_within_defined_scopes(t: InstallSettingsView)
    ensures
        forall|i: int| 0 <= i < spec_store_plan(t).len()
            ==> crate::install_settings::spec_defined_scopes(t).contains(
                spec_write_scope(#[trigger] spec_store_plan(t)[i]),
            ),
{
    let plan = spec_store_plan(t);
    let scopes = crate::install_settings::spec_defined_scopes(t);
    let software_writes = match t.software {
        Some(s) => spec_software_writes(s),
        None => Seq::empty(),
    };
    let users_writes = match t.user {
        Some(u) => seq![spec_users_write(u)],
        None => Seq::<WriteRequestView>::empty(),
    };
    assert forall|i: int| 0 <= i < plan.len() implies scopes.contains(
        spec_write_scope(plan[i]),
    ) by {
        if i < software_writes.len() {
            assert(t.software is Some);
            assert(spec_write_scope(plan[i]) == Scope::Software);
            assert(scopes[scopes.len() - 1] == Scope::Software);
        } else if i < software_writes.len() + users_writes.len() {
            assert(t.user is Some);
            assert(spec_write_scope(plan[i]) == Scope::Users);
            assert(scopes[0] == Scope::Users);
        } else {
            assert(t.storage is Some);
            assert(spec_write_scope(plan[i]) == Scope::Storage);
            if t.user is Some {
                assert(scopes[1] == Scope::Storage);
            } else {
                assert(scopes[0] == Scope::Storage);
            }
        }
    }
}

/// Law: a load limited to the storage scope consults only the storage
/// backend: whatever the backends hold, the user and software domains of the
/// assembled tree stay absent and the storage domain carries exactly the
/// storage payload.
pub proof fn lemma_load_storage_only(
    u: UserSettingsView,
    s: SoftwareSettingsView,
    st: StorageSettingsView,
)
    ensures
        spec_assembled(seq![Scope::Storage], u, s, st) == (InstallSettingsView {
            user: None,
            software: None,
            storage: Some(st),
        }),
{
    let scopes = seq![Scope::Storage];
    assert(!scopes.contains(Scope::Users)) by {
        assert(forall|j: int| 0 <= j < scopes.len() ==> scopes[j] == Scope::Storage);
    }
    assert(!scopes.contains(Scope::Software)) by {
        assert(forall|j: int| 0 <= j < scopes.len() ==> scopes[j] == Scope::Storage);
    }
    assert(scopes.contains(Scope::Storage)) by {
        assert(scopes[0] == Scope::Storage);
    }
}

/// Law: a store of a tree with only the storage domain present performs
/// exactly one backend write, to the storage backend; the user and software
/// backends are never touched.
pub proof fn lemma_store_storage_only(st: StorageSettingsView)
    ensures
        spec_store_plan(
            InstallSettingsView { user: None, software: None, storage: Some(st) },
        ) == seq![spec_storage_write(st)],
{
    assert(spec_store_plan(
        InstallSettingsView { user: None, software: None, storage: Some(st) },
    ) =~= seq![spec_storage_write(st)]);
}

/// Law: a store of a tree with all three domains present — as after a full
/// load, where a product is always chosen — performs exactly one write per
/// backend, in the order software, users, storage.
pub proof fn lemma_store_all_domains(
    u: UserSettingsView,
    s: SoftwareSettingsView,
    st: StorageSettingsView,
)
    requires
        s.product is Some,
    ensures
        spec_store_plan(
            InstallSettingsView { user: Some(u), software: Some(s), storage: Some(st) },
        ) == seq![
            WriteRequestView::Software { product: s.product->0 },
            spec_users_write(u),
            spec_storage_write(st),
        ],
{
    assert(spec_store_plan(
        InstallSettingsView { user: Some(u), software: Some(s), storage: Some(st) },
    ) =~= seq![
        WriteRequestView::Software { product: s.product->0 },
        spec_users_write(u),
        spec_storage_write(st),
    ]);
}

} // verus!
