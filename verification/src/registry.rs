//! The host function registry: the complete capability surface available
//! to scripts.
//!
//! Every native routine a script may call is declared here once, at
//! startup, as a symbol name, a native address token and a typed marshaling
//! signature. A declaration whose shape is not one of the closed set of
//! supported variants is rejected at registration, and looking up an
//! unregistered name during linking is a reported link error, not a host
//! crash. After sealing, the set is immutable.

use vstd::prelude::*;

use crate::errors::RegistryError;
use crate::marshal::ParamKind;
use crate::marshal::RetKind;
use crate::marshal::Signature;

verus! {

/// One registered host function: symbol name, native address token, and
/// the declared marshaling signature.
pub struct RegistryEntry {
    pub name: String,
    pub addr: u64,
    pub sig: Signature,
}

/// The fixed table mapping callable names to native addresses and
/// signatures, used during linking.
pub struct Registry {
    entries: Vec<RegistryEntry>,
    sealed: bool,
}

impl Registry {
    /// The registered entries in registration order.
    pub closed spec fn entries(&self) -> Seq<RegistryEntry> {
        self.entries@
    }

    /// Registration is closed: the set is immutable from here on.
    pub closed spec fn sealed(&self) -> bool {
        self.sealed
    }

    /// Some entry carries the symbol name `n`.
    pub open spec fn contains_name(&self, n: Seq<char>) -> bool {
        exists|k: int| 0 <= k < self.entries().len() && (#[trigger] self.entries()[k]).name@ == n
    }

    /// Some entry binds the symbol name `n` to the address token `a`.
    pub open spec fn binds(&self, n: Seq<char>, a: u64) -> bool {
        exists|k: int| 0 <= k < self.entries().len() && (#[trigger] self.entries()[k]).name@ == n
            && self.entries()[k].addr == a
    }

    /// Some entry declares the symbol name `n` at address `a` with exactly
    /// the parameter categories `params` and return category `ret`.
    pub open spec fn declares(&self, n: Seq<char>, a: u64, params: Seq<ParamKind>, ret: RetKind) -> bool {
        exists|k: int| 0 <= k < self.entries().len() && (#[trigger] self.entries()[k]).name@ == n
            && self.entries()[k].addr == a && self.entries()[k].sig.params@ == params
            && self.entries()[k].sig.ret == ret
    }

    /// Well-formedness: symbol names are pairwise distinct and every
    /// declared signature has a supported shape.
    pub closed spec fn wf(&self) -> bool {
        &&& forall|j: int, k: int| 0 <= j < k < self.entries@.len()
            ==> (#[trigger] self.entries@[j]).name@ != (#[trigger] self.entries@[k]).name@
        &&& forall|k: int| 0 <= k < self.entries@.len()
            ==> (#[trigger] self.entries@[k]).sig.supported()
    }

    /// An empty, unsealed registry.
    pub fn new() -> (r: Registry)
        ensures
            r.wf(),
            !r.sealed(),
            r.entries() == Seq::<RegistryEntry>::empty(),
    {
        Registry { entries: Vec::new(), sealed: false }
    }

    /// Whether registration is closed.
    pub fn is_sealed(&self) -> (r: bool)
        ensures
            r == self.sealed(),
    {
        self.sealed
    }

    /// Closes registration: the set of entries is immutable thereafter.
    pub fn seal(&mut self)
        requires
            old(self).wf(),
        ensures
            final(self).wf(),
            final(self).sealed(),
            final(self).entries() == old(self).entries(),
    {
        self.sealed = true;
    }

    /// Declares one host function. Registration is validated: a sealed
    /// registry, an unsupported signature shape and a duplicate symbol
    /// name are each rejected, so a mismatched declaration is caught here
    /// rather than trusted blindly at link time.
    pub fn register(&mut self, name: String, addr: u64, sig: Signature) -> (r: Result<
        (),
        RegistryError,
    >)
        requires
            old(self).wf(),
        ensures
            final(self).wf(),
            final(self).sealed() == old(self).sealed(),
            r is Ok <==> (!old(self).sealed() && sig.supported() && !old(self).contains_name(
                name@,
            )),
            match r {
                Ok(()) => final(self).entries().len() == old(self).entries().len() + 1
                    && (forall|k: int| 0 <= k < old(self).entries().len()
                    ==> final(self).entries()[k] == old(self).entries()[k])
                    && final(self).entries().last().name@ == name@
                    && final(self).entries().last().addr == addr
                    && final(self).entries().last().sig == sig,
                Err(e) => *final(self) == *old(self) && ((e == RegistryError::Sealed && old(
                    self,
                ).sealed()) || (e == RegistryError::UnsupportedSignature && !old(self).sealed()
                    && !sig.supported()) || (e == RegistryError::DuplicateName && !old(
                    self,
                ).sealed() && sig.supported() && old(self).contains_name(name@))),
            },
    {
        if self.sealed {
            return Err(RegistryError::Sealed);
        }
        if !sig.is_supported() {
            return Err(RegistryError::UnsupportedSignature);
        }
        if self.contains(&name) {
            return Err(RegistryError::DuplicateName);
        }
        self.entries.push(RegistryEntry { name, addr, sig });
        Ok(())
    }

    /// Decides whether a symbol name is already registered.
    pub fn contains(&self, name: &String) -> (r: bool)
        ensures
            r == self.contains_name(name@),
    {
        let n = self.entries.len();
        let mut k: usize = 0;
        while k < n
            invariant
                k <= n,
                n == self.entries@.len(),
                forall|j: int| 0 <= j < k ==> (#[trigger] self.entries@[j]).name@ != name@,
            decreases n - k,
        {
            if self.entries[k].name == *name {
                return true;
            }
            k = k + 1;
        }
        false
    }

    /// Looks a symbol name up; `None` reports an unregistered name to the
    /// caller instead of crashing the host.
    pub fn lookup(&self, name: &String) -> (r: Option<&RegistryEntry>)
        ensures
            r is Some <==> self.contains_name(name@),
            match r {
                Some(e) => e.name@ == name@ && exists|k: int| 0 <= k < self.entries().len()
                    && (#[trigger] self.entries()[k]) == *e,
                None => !self.contains_name(name@),
            },
    {
        let n = self.entries.len();
        let mut k: usize = 0;
        while k < n
            invariant
                k <= n,
                n == self.entries@.len(),
                forall|j: int| 0 <= j < k ==> (#[trigger] self.entries@[j]).name@ != name@,
            decreases n - k,
        {
            if self.entries[k].name == *name {
                let e = &self.entries[k];
                proof {
                    assert(self.entries()[k as int] == *e);
                }
                return Some(e);
            }
            k = k + 1;
        }
        None
    }

    /// Resolves every symbol a compiled routine references to its native
    /// address, for the external linker. The first unresolved name is
    /// reported back as a link error.
    pub fn resolve(&self, refs: &Vec<String>) -> (r: Result<Vec<u64>, String>)
        ensures
            r is Ok <==> (forall|k: int| 0 <= k < refs@.len() ==> self.contains_name(
                (#[trigger] refs@[k])@,
            )),
            match r {
                Ok(addrs) => addrs@.len() == refs@.len() && (forall|k: int| 0 <= k < refs@.len()
                    ==> self.binds((#[trigger] refs@[k])@, addrs@[k])),
                Err(sym) => exists|k: int| 0 <= k < refs@.len() && !self.contains_name(
                    (#[trigger] refs@[k])@,
                ) && sym@ == refs@[k]@ && (forall|j: int| 0 <= j < k ==> self.contains_name(
                    (#[trigger] refs@[j])@,
                )),
            },
    {
        let n = refs.len();
        let mut addrs: Vec<u64> = Vec::new();
        let mut k: usize = 0;
        while k < n
            invariant
                k <= n,
                n == refs@.len(),
                addrs@.len() == k,
                forall|j: int| 0 <= j < k ==> self.contains_name((#[trigger] refs@[j])@),
                forall|j: int| 0 <= j < k ==> self.binds((#[trigger] refs@[j])@, addrs@[j]),
            decreases n - k,
        {
            match self.lookup(&refs[k]) {
                Some(e) => {
                    addrs.push(e.addr);
                },
                None => {
                    return Err(refs[k].clone());
                },
            }
            k = k + 1;
        }
        Ok(addrs)
    }
}

/// Declares the three UI host functions a script's widgets call: a label,
/// a button and a slider, each taking the UI context by reference and a
/// null-terminated text by reference, the slider also its value and range.
/// The native address of each is supplied by the host.
pub fn append_egui(
    reg: &mut Registry,
    label_addr: u64,
    button_addr: u64,
    slider_addr: u64,
) -> (r: Result<(), RegistryError>)
    requires
        old(reg).wf(),
    ensures
        final(reg).wf(),
        final(reg).sealed() == old(reg).sealed(),
        r is Ok <==> (!old(reg).sealed() && !old(reg).contains_name("Ui.label"@) && !old(
            reg,
        ).contains_name("Ui.button"@) && !old(reg).contains_name("Ui.slider"@)),
        match r {
            Ok(()) => {
                &&& final(reg).declares(
                    "Ui.label"@,
                    label_addr,
                    seq![ParamKind::UiRef, ParamKind::TextRef],
                    RetKind::Unit,
                )
                &&& final(reg).declares(
                    "Ui.button"@,
                    button_addr,
                    seq![ParamKind::UiRef, ParamKind::TextRef],
                    RetKind::Bool,
                )
                &&& final(reg).declares(
                    "Ui.slider"@,
                    slider_addr,
                    seq![
                        ParamKind::UiRef,
                        ParamKind::TextRef,
                        ParamKind::Float,
                        ParamKind::Float,
                        ParamKind::Float,
                    ],
                    RetKind::Float,
                )
                &&& final(reg).entries().len() == old(reg).entries().len() + 3
                &&& forall|k: int| 0 <= k < old(reg).entries().len() ==> final(reg).entries()[k]
                    == old(reg).entries()[k]
            },
            Err(e) => *final(reg) == *old(reg) && ((e == RegistryError::Sealed && old(
                reg,
            ).sealed()) || (e == RegistryError::DuplicateName && !old(reg).sealed())),
        },
{
    let label_name = "Ui.label".to_owned();
    let button_name = "Ui.button".to_owned();
    let slider_name = "Ui.slider".to_owned();
    proof {
        reveal_strlit("Ui.label");
        reveal_strlit("Ui.button");
        reveal_strlit("Ui.slider");
        assert("Ui.label"@.len() == 8);
        assert("Ui.button"@.len() == 9);
        assert("Ui.slider"@.len() == 9);
        assert("Ui.button"@[3] == 'b');
        assert("Ui.slider"@[3] == 's');
        assert("Ui.label"@ != "Ui.button"@);
        assert("Ui.label"@ != "Ui.slider"@);
        assert("Ui.button"@ != "Ui.slider"@);
    }
    if reg.is_sealed() {
        return Err(RegistryError::Sealed);
    }
    if reg.contains(&label_name) || reg.contains(&button_name) || reg.contains(&slider_name) {
        return Err(RegistryError::DuplicateName);
    }
    let mut p1: Vec<ParamKind> = Vec::new();
    p1.push(ParamKind::UiRef);
    p1.push(ParamKind::TextRef);
    let s1 = Signature { params: p1, ret: RetKind::Unit };
    proof {
        assert(s1.params@ =~= seq![ParamKind::UiRef, ParamKind::TextRef]);
    }
    let r1 = reg.register(label_name, label_addr, s1);
    if let Err(e) = r1 {
        return Err(e);
    }
    let ghost reg1 = *reg;
    proof {
        assert forall|k: int| 0 <= k < reg1.entries().len() implies (#[trigger] reg1.entries()[k]).name@ != "Ui.button"@ by {
            if k < old(reg).entries().len() {
                assert(reg1.entries()[k] == old(reg).entries()[k]);
            }
        }
        assert(!reg1.contains_name("Ui.button"@));
        assert forall|k: int| 0 <= k < reg1.entries().len() implies (#[trigger] reg1.entries()[k]).name@ != "Ui.slider"@ by {
            if k < old(reg).entries().len() {
                assert(reg1.entries()[k] == old(reg).entries()[k]);
            }
        }
        assert(!reg1.contains_name("Ui.slider"@));
    }
    let mut p2: Vec<ParamKind> = Vec::new();
    p2.push(ParamKind::UiRef);
    p2.push(ParamKind::TextRef);
    let s2 = Signature { params: p2, ret: RetKind::Bool };
    proof {
        assert(s2.params@ =~= seq![ParamKind::UiRef, ParamKind::TextRef]);
    }
    let r2 = reg.register(button_name, button_addr, s2);
    if let Err(e) = r2 {
        return Err(e);
    }
    let ghost reg2 = *reg;
    proof {
        assert forall|k: int| 0 <= k < reg2.entries().len() implies (#[trigger] reg2.entries()[k]).name@ != "Ui.slider"@ by {
            if k < reg1.entries().len() {
                assert(reg2.entries()[k] == reg1.entries()[k]);
                if k < old(reg).entries().len() {
                    assert(reg1.entries()[k] == old(reg).entries()[k]);
                }
            }
        }
        assert(!reg2.contains_name("Ui.slider"@));
    }
    let mut p3: Vec<ParamKind> = Vec::new();
    p3.push(ParamKind::UiRef);
    p3.push(ParamKind::TextRef);
    p3.push(ParamKind::Float);
    p3.push(ParamKind::Float);
    p3.push(ParamKind::Float);
    let s3 = Signature { params: p3, ret: RetKind::Float };
    proof {
        assert(s3.params@ =~= seq![
            ParamKind::UiRef,
            ParamKind::TextRef,
            ParamKind::Float,
            ParamKind::Float,
            ParamKind::Float,
        ]);
    }
    let r3 = reg.register(slider_name, slider_addr, s3);
    if let Err(e) = r3 {
        return Err(e);
    }
    proof {
        let n0 = old(reg).entries().len() as int;
        assert(reg.entries()[n0] == reg1.entries()[n0]);
        assert(reg.entries()[n0 + 1] == reg2.entries()[n0 + 1]);
        assert(reg.entries()[n0].name@ == "Ui.label"@);
        assert(reg.entries()[n0 + 1].name@ == "Ui.button"@);
        assert(reg.entries()[n0 + 2].name@ == "Ui.slider"@);
    }
    Ok(())
}

/// Declares the formatting call and the four opaque-container operations
/// of the boundary contract: create, push, get and drop, each operating
/// on an address-sized handle. The native address of each is supplied by
/// the host.
pub fn register_boundary_support(
    reg: &mut Registry,
    format_addr: u64,
    create_addr: u64,
    push_addr: u64,
    get_addr: u64,
    drop_addr: u64,
) -> (r: Result<(), RegistryError>)
    requires
        old(reg).wf(),
    ensures
        final(reg).wf(),
        final(reg).sealed() == old(reg).sealed(),
        r is Ok <==> (!old(reg).sealed() && !old(reg).contains_name("format"@) && !old(
            reg,
        ).contains_name("container_create"@) && !old(reg).contains_name("container_push"@)
            && !old(reg).contains_name("container_get"@) && !old(reg).contains_name(
            "container_drop"@,
        )),
        match r {
            Ok(()) => {
                &&& final(reg).declares(
                    "format"@,
                    format_addr,
                    seq![ParamKind::BufRef, ParamKind::TextRef, ParamKind::Float],
                    RetKind::TextRef,
                )
                &&& final(reg).declares(
                    "container_create"@,
                    create_addr,
                    Seq::<ParamKind>::empty(),
                    RetKind::Handle,
                )
                &&& final(reg).declares(
                    "container_push"@,
                    push_addr,
                    seq![ParamKind::Handle, ParamKind::Float],
                    RetKind::Unit,
                )
                &&& final(reg).declares(
                    "container_get"@,
                    get_addr,
                    seq![ParamKind::Handle, ParamKind::Int],
                    RetKind::Float,
                )
                &&& final(reg).declares(
                    "container_drop"@,
                    drop_addr,
                    seq![ParamKind::Handle],
                    RetKind::Unit,
                )
                &&& final(reg).entries().len() == old(reg).entries().len() + 5
                &&& forall|k: int| 0 <= k < old(reg).entries().len() ==> final(reg).entries()[k]
                    == old(reg).entries()[k]
            },
            Err(e) => *final(reg) == *old(reg) && ((e == RegistryError::Sealed && old(
                reg,
            ).sealed()) || (e == RegistryError::DuplicateName && !old(reg).sealed())),
        },
{
    let format_name = "format".to_owned();
    let create_name = "container_create".to_owned();
    let push_name = "container_push".to_owned();
    let get_name = "container_get".to_owned();
    let drop_name = "container_drop".to_owned();
    proof {
        reveal_strlit("format");
        reveal_strlit("container_create");
        reveal_strlit("container_push");
        reveal_strlit("container_get");
        reveal_strlit("container_drop");
        assert("format"@.len() == 6);
        assert("container_create"@.len() == 16);
        assert("container_push"@.len() == 14);
        assert("container_get"@.len() == 13);
        assert("container_drop"@.len() == 14);
        assert("container_push"@[10] == 'p');
        assert("container_drop"@[10] == 'd');
        assert("container_push"@ != "container_drop"@);
    }
    if reg.is_sealed() {
        return Err(RegistryError::Sealed);
    }
    if reg.contains(&format_name) || reg.contains(&create_name) || reg.contains(&push_name)
        || reg.contains(&get_name) || reg.contains(&drop_name) {
        return Err(RegistryError::DuplicateName);
    }
    let mut p1: Vec<ParamKind> = Vec::new();
    p1.push(ParamKind::BufRef);
    p1.push(ParamKind::TextRef);
    p1.push(ParamKind::Float);
    let s1 = Signature { params: p1, ret: RetKind::TextRef };
    proof {
        assert(s1.params@ =~= seq![ParamKind::BufRef, ParamKind::TextRef, ParamKind::Float]);
    }
    let r1 = reg.register(format_name, format_addr, s1);
    if let Err(e) = r1 {
        return Err(e);
    }
    let ghost reg1 = *reg;
    proof {
        lemma_absent_after_push(*old(reg), reg1, "container_create"@);
        lemma_absent_after_push(*old(reg), reg1, "container_push"@);
        lemma_absent_after_push(*old(reg), reg1, "container_get"@);
        lemma_absent_after_push(*old(reg), reg1, "container_drop"@);
    }
    let s2 = Signature { params: Vec::new(), ret: RetKind::Handle };
    proof {
        assert(s2.params@ =~= Seq::<ParamKind>::empty());
    }
    let r2 = reg.register(create_name, create_addr, s2);
    if let Err(e) = r2 {
        return Err(e);
    }
    let ghost reg2 = *reg;
    proof {
        lemma_absent_after_push(reg1, reg2, "container_push"@);
        lemma_absent_after_push(reg1, reg2, "container_get"@);
        lemma_absent_after_push(reg1, reg2, "container_drop"@);
    }
    let mut p3: Vec<ParamKind> = Vec::new();
    p3.push(ParamKind::Handle);
    p3.push(ParamKind::Float);
    let s3 = Signature { params: p3, ret: RetKind::Unit };
    proof {
        assert(s3.params@ =~= seq![ParamKind::Handle, ParamKind::Float]);
    }
    let r3 = reg.register(push_name, push_addr, s3);
    if let Err(e) = r3 {
        return Err(e);
    }
    let ghost reg3 = *reg;
    proof {
        lemma_absent_after_push(reg2, reg3, "container_get"@);
        lemma_absent_after_push(reg2, reg3, "container_drop"@);
    }
    let mut p4: Vec<ParamKind> = Vec::new();
    p4.push(ParamKind::Handle);
    p4.push(ParamKind::Int);
    let s4 = Signature { params: p4, ret: RetKind::Float };
    proof {
        assert(s4.params@ =~= seq![ParamKind::Handle, ParamKind::Int]);
    }
    let r4 = reg.register(get_name, get_addr, s4);
    if let Err(e) = r4 {
        return Err(e);
    }
    let ghost reg4 = *reg;
    proof {
        lemma_absent_after_push(reg3, reg4, "container_drop"@);
    }
    let mut p5: Vec<ParamKind> = Vec::new();
    p5.push(ParamKind::Handle);
    let s5 = Signature { params: p5, ret: RetKind::Unit };
    proof {
        assert(s5.params@ =~= seq![ParamKind::Handle]);
    }
    let r5 = reg.register(drop_name, drop_addr, s5);
    if let Err(e) = r5 {
        return Err(e);
    }
    proof {
        let n0 = old(reg).entries().len() as int;
        assert(reg.entries()[n0] == reg1.entries()[n0]);
        assert(reg.entries()[n0 + 1] == reg2.entries()[n0 + 1]);
        assert(reg.entries()[n0 + 2] == reg3.entries()[n0 + 2]);
        assert(reg.entries()[n0 + 3] == reg4.entries()[n0 + 3]);
        assert(reg.entries()[n0].name@ == "format"@);
        assert(reg.entries()[n0 + 1].name@ == "container_create"@);
        assert(reg.entries()[n0 + 2].name@ == "container_push"@);
        assert(reg.entries()[n0 + 3].name@ == "container_get"@);
        assert(reg.entries()[n0 + 4].name@ == "container_drop"@);
    }
    Ok(())
}

/// A name that neither stood in the registry nor was just pushed is still
/// absent after the push.
proof fn lemma_absent_after_push(pre: Registry, post: Registry, n: Seq<char>)
    requires
        !pre.contains_name(n),
        post.entries().len() == pre.entries().len() + 1,
        forall|k: int| 0 <= k < pre.entries().len() ==> post.entries()[k] == pre.entries()[k],
        post.entries().last().name@ != n,
    ensures
        !post.contains_name(n),
{
    assert forall|k: int| 0 <= k < post.entries().len() implies (#[trigger] post.entries()[k]).name@ != n by {
        if k < pre.entries().len() {
            assert(post.entries()[k] == pre.entries()[k]);
        } else {
            assert(post.entries()[k] == post.entries().last());
        }
    }
}

} // verus!
