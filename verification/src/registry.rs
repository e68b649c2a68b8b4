//! The registration manager, verified against a model of the persistent
//! class-registration store: a table of per-class bindings, each mapping a
//! class identifier to a display name, the registering module's path and a
//! threading-capability marker. Registration publishes a binding for each of
//! the three activatable classes; unregistration deletes them, treating an
//! absent binding as success. The store itself is an external collaborator
//! and its own failures happen at that boundary; the model verifies the state
//! transitions, the idempotence of unregistration, and the cleanup law the
//! rollback path relies on: unregistering after any partial registration
//! leaves the store exactly as unregistering alone would. The table's order
//! carries no meaning; it is an artifact of the model.

use vstd::prelude::*;
use vstd::string::StringExecFns;
use crate::guid::{
    Guid, guid_eq, clsid_client, clsid_server, clsid_test, spec_clsid_client, spec_clsid_server,
    spec_clsid_test,
};
use crate::hresult::{HRESULT, S_OK};

verus! {

/// One published class binding, as the model store holds it.
pub struct ClassBinding {
    /// The class identifier the binding publishes.
    pub clsid: Guid,
    /// The human-readable class name.
    pub display_name: String,
    /// The on-disk path of the module that serves the class.
    pub dll_path: String,
    /// The threading-capability marker; this module always registers as
    /// safe for both single-threaded and free-threaded activation.
    pub threading_model: String,
}

/// The mathematical value of a class binding.
pub struct SpecBinding {
    pub clsid: Guid,
    pub display_name: Seq<char>,
    pub dll_path: Seq<char>,
    pub threading_model: Seq<char>,
}

impl View for ClassBinding {
    type V = SpecBinding;

    open spec fn view(&self) -> SpecBinding {
        SpecBinding {
            clsid: self.clsid,
            display_name: self.display_name@,
            dll_path: self.dll_path@,
            threading_model: self.threading_model@,
        }
    }
}

/// The model of the class-registration store.
pub struct ClassRegistry {
    /// The published bindings.
    pub bindings: Vec<ClassBinding>,
}

impl View for ClassRegistry {
    type V = Seq<SpecBinding>;

    open spec fn view(&self) -> Seq<SpecBinding> {
        self.bindings@.map_values(|b: ClassBinding| b@)
    }
}

/// Whether a class identifier is one of this module's three classes.
pub open spec fn spec_is_voice_clsid(clsid: Guid) -> bool {
    clsid == spec_clsid_client() || clsid == spec_clsid_server() || clsid == spec_clsid_test()
}

/// Keeps every binding of a class other than the given one.
pub open spec fn spec_keep_pred(clsid: Guid) -> spec_fn(SpecBinding) -> bool {
    |b: SpecBinding| b.clsid != clsid
}

/// Keeps every binding that does not belong to this module's classes.
pub open spec fn spec_foreign_pred() -> spec_fn(SpecBinding) -> bool {
    |b: SpecBinding| !spec_is_voice_clsid(b.clsid)
}

/// The store with every binding of one class deleted.
pub open spec fn spec_remove_clsid(s: Seq<SpecBinding>, clsid: Guid) -> Seq<SpecBinding> {
    s.filter(spec_keep_pred(clsid))
}

/// The store with every binding of this module's classes deleted.
pub open spec fn spec_unregister_all(s: Seq<SpecBinding>) -> Seq<SpecBinding> {
    s.filter(spec_foreign_pred())
}

/// The store with a binding published: any previous binding of the same
/// class is replaced.
pub open spec fn spec_upsert(s: Seq<SpecBinding>, b: SpecBinding) -> Seq<SpecBinding> {
    spec_remove_clsid(s, b.clsid).push(b)
}

/// The binding the registration publishes for the client session class.
pub open spec fn spec_client_binding(path: Seq<char>) -> SpecBinding {
    SpecBinding {
        clsid: spec_clsid_client(),
        display_name: "DirectPlayVoiceClient"@,
        dll_path: path,
        threading_model: "Both"@,
    }
}

/// The binding the registration publishes for the server session class.
pub open spec fn spec_server_binding(path: Seq<char>) -> SpecBinding {
    SpecBinding {
        clsid: spec_clsid_server(),
        display_name: "DirectPlayVoiceServer"@,
        dll_path: path,
        threading_model: "Both"@,
    }
}

/// The binding the registration publishes for the capability-probe class.
pub open spec fn spec_test_binding(path: Seq<char>) -> SpecBinding {
    SpecBinding {
        clsid: spec_clsid_test(),
        display_name: "DirectPlayVoiceTest"@,
        dll_path: path,
        threading_model: "Both"@,
    }
}

/// The store after a full registration of the three classes, in order.
pub open spec fn spec_register_all(s: Seq<SpecBinding>, path: Seq<char>) -> Seq<SpecBinding> {
    spec_upsert(
        spec_upsert(spec_upsert(s, spec_client_binding(path)), spec_server_binding(path)),
        spec_test_binding(path),
    )
}

/// The store key under which a class's binding lives: the class-registration
/// subtree, then the identifier's canonical text in braces.
pub open spec fn spec_class_key_path(clsid: Guid) -> Seq<char> {
    "Software\\Classes\\CLSID\\{"@ + crate::guid::spec_guid_text(clsid) + "}"@
}

/// Renders the store key under which a class's binding lives.
pub fn class_key_path(class_id: &Guid) -> (s: String)
    ensures
        s@ == spec_class_key_path(*class_id),
{
    let mut out = String::from_str("Software\\Classes\\CLSID\\{");
    out.append(crate::guid::guid_text(class_id).as_str());
    out.append("}");
    assert(out@ =~= spec_class_key_path(*class_id));
    out
}

/// Filtering a one-element sequence keeps or drops its element.
proof fn lemma_filter_singleton<A>(x: A, pred: spec_fn(A) -> bool)
    ensures
        seq![x].filter(pred) == if pred(x) {
            seq![x]
        } else {
            Seq::<A>::empty()
        },
{
    reveal(Seq::filter);
    let single = seq![x];
    assert(single.drop_last() =~= Seq::<A>::empty());
    assert(single.drop_last().filter(pred) == Seq::<A>::empty().filter(pred));
    assert(Seq::<A>::empty().filter(pred) == Seq::<A>::empty());
    if pred(x) {
        assert(single.filter(pred) == Seq::<A>::empty().push(x));
        assert(single.filter(pred) =~= seq![x]);
    } else {
        assert(single.filter(pred) == Seq::<A>::empty());
    }
}

/// A sequence whose elements all satisfy a predicate is unchanged by
/// filtering with it.
proof fn lemma_filter_all<A>(s: Seq<A>, pred: spec_fn(A) -> bool)
    requires
        forall|i: int| 0 <= i < s.len() ==> pred(#[trigger] s[i]),
    ensures
        s.filter(pred) == s,
    decreases s.len(),
{
    reveal(Seq::filter);
    if s.len() != 0 {
        assert(forall|i: int|
            0 <= i < s.drop_last().len() ==> pred(#[trigger] s.drop_last()[i]));
        lemma_filter_all(s.drop_last(), pred);
        assert(s.filter(pred) =~= s);
    }
}

/// Deleting a class of this module commutes into nothing under a full
/// unregistration: the foreign bindings that survive are the same.
proof fn lemma_unregister_after_remove(s: Seq<SpecBinding>, clsid: Guid)
    requires
        spec_is_voice_clsid(clsid),
    ensures
        spec_unregister_all(spec_remove_clsid(s, clsid)) == spec_unregister_all(s),
    decreases s.len(),
{
    reveal(Seq::filter);
    if s.len() != 0 {
        let x = s.drop_last();
        let l = s.last();
        lemma_unregister_after_remove(x, clsid);
        assert(s =~= x + seq![l]);
        Seq::filter_distributes_over_add(x, seq![l], spec_keep_pred(clsid));
        lemma_filter_singleton(l, spec_keep_pred(clsid));
        lemma_filter_singleton(l, spec_foreign_pred());
        if l.clsid != clsid {
            Seq::filter_distributes_over_add(
                spec_remove_clsid(x, clsid),
                seq![l],
                spec_foreign_pred(),
            );
            assert(spec_unregister_all(spec_remove_clsid(s, clsid)) =~= spec_unregister_all(s));
        } else {
            assert(spec_remove_clsid(s, clsid) =~= spec_remove_clsid(x, clsid));
            Seq::filter_distributes_over_add(x, seq![l], spec_foreign_pred());
            assert(spec_unregister_all(s) =~= spec_unregister_all(x));
        }
    }
}

/// Publishing a binding of one of this module's classes changes nothing
/// about what a full unregistration leaves behind: the cleanup after any
/// partial registration is as thorough as after none.
pub proof fn lemma_unregister_after_upsert(s: Seq<SpecBinding>, b: SpecBinding)
    requires
        spec_is_voice_clsid(b.clsid),
    ensures
        spec_unregister_all(spec_upsert(s, b)) == spec_unregister_all(s),
{
    reveal(Seq::filter);
    let removed = spec_remove_clsid(s, b.clsid);
    assert(spec_upsert(s, b) =~= removed + seq![b]);
    Seq::filter_distributes_over_add(removed, seq![b], spec_foreign_pred());
    lemma_filter_singleton(b, spec_foreign_pred());
    lemma_unregister_after_remove(s, b.clsid);
    assert(spec_unregister_all(spec_upsert(s, b)) =~= spec_unregister_all(s));
}

/// Law: unregistration is idempotent. A store unregistered once is a fixed
/// point: unregistering it again changes nothing, and both calls succeed,
/// since an absent binding already counts as successfully deleted.
pub proof fn lemma_unregister_idempotent(s: Seq<SpecBinding>)
    ensures
        spec_unregister_all(spec_unregister_all(s)) == spec_unregister_all(s),
{
    let u = spec_unregister_all(s);
    let p = spec_foreign_pred();
    assert forall|i: int| 0 <= i < u.len() implies p(#[trigger] u[i]) by {
        Seq::lemma_filter_pred(s, p, i);
    }
    lemma_filter_all(u, p);
}

/// Law: the rollback path restores the store. Unregistering after any
/// partial registration — one class published, two, or all three — leaves
/// exactly what unregistering the original store would leave: no partially
/// written binding survives.
pub proof fn lemma_rollback_clean(s: Seq<SpecBinding>, path: Seq<char>)
    ensures
        spec_unregister_all(spec_upsert(s, spec_client_binding(path))) == spec_unregister_all(s),
        spec_unregister_all(
            spec_upsert(spec_upsert(s, spec_client_binding(path)), spec_server_binding(path)),
        ) == spec_unregister_all(s),
        spec_unregister_all(spec_register_all(s, path)) == spec_unregister_all(s),
{
    let s1 = spec_upsert(s, spec_client_binding(path));
    let s2 = spec_upsert(s1, spec_server_binding(path));
    lemma_unregister_after_upsert(s, spec_client_binding(path));
    lemma_unregister_after_upsert(s1, spec_server_binding(path));
    lemma_unregister_after_upsert(s2, spec_test_binding(path));
}

/// Law: a full registration publishes all three bindings — each class's
/// binding, carrying the module path and the marker for both threading
/// modes, is present in the resulting store.
pub proof fn lemma_register_publishes(s: Seq<SpecBinding>, path: Seq<char>)
    ensures
        spec_register_all(s, path).contains(spec_client_binding(path)),
        spec_register_all(s, path).contains(spec_server_binding(path)),
        spec_register_all(s, path).contains(spec_test_binding(path)),
{
    let cb = spec_client_binding(path);
    let sb = spec_server_binding(path);
    let tb = spec_test_binding(path);
    let s1 = spec_upsert(s, cb);
    let s2 = spec_upsert(s1, sb);
    let s3 = spec_upsert(s2, tb);
    assert(s1[s1.len() - 1] == cb);
    assert(s2[s2.len() - 1] == sb);
    assert(s3[s3.len() - 1] == tb);
    let i1 = s1.len() - 1;
    let keep2 = spec_keep_pred(sb.clsid);
    let keep3 = spec_keep_pred(tb.clsid);
    assert(keep2(s1[i1]));
    Seq::lemma_filter_contains(s1, keep2, i1);
    let r2 = spec_remove_clsid(s1, sb.clsid);
    let j1 = choose|j: int| 0 <= j < r2.len() && r2[j] == cb;
    assert(s2[j1] == cb);
    let i2 = choose|j: int| 0 <= j < s2.len() && s2[j] == cb;
    assert(keep3(s2[i2]));
    Seq::lemma_filter_contains(s2, keep3, i2);
    let r3 = spec_remove_clsid(s2, tb.clsid);
    let j2 = choose|j: int| 0 <= j < r3.len() && r3[j] == cb;
    assert(s3[j2] == cb);
    let i3 = s2.len() - 1;
    assert(keep3(s2[i3]));
    Seq::lemma_filter_contains(s2, keep3, i3);
    let j3 = choose|j: int| 0 <= j < r3.len() && r3[j] == sb;
    assert(s3[j3] == sb);
}

impl ClassRegistry {
    /// Creates an empty model store.
    pub fn new() -> (reg: Self)
        ensures
            reg@ == Seq::<SpecBinding>::empty(),
    {
        let reg = ClassRegistry { bindings: Vec::new() };
        proof {
            assert(reg@ =~= Seq::<SpecBinding>::empty());
        }
        reg
    }

    /// Deletes every binding of one class. An absent binding is not a
    /// failure: deleting a class that was never registered leaves the store
    /// unchanged and counts as success.
    pub fn unregister_class(&mut self, class_id: &Guid)
        ensures
            final(self)@ == spec_remove_clsid(old(self)@, *class_id),
    {
        let ghost orig: Seq<SpecBinding> = self@;
        let ghost pred = spec_keep_pred(*class_id);
        let mut i: usize = 0;
        let ghost mut j: int = 0;
        while i < self.bindings.len()
            invariant
                0 <= j <= orig.len(),
                i == spec_remove_clsid(orig.take(j), *class_id).len(),
                self@ == spec_remove_clsid(orig.take(j), *class_id) + orig.skip(j),
                pred == spec_keep_pred(*class_id),
            decreases orig.len() - j,
        {
            proof {
                assert(self@.len() == i + orig.skip(j).len());
                assert(j < orig.len());
                assert(orig.take(j + 1) =~= orig.take(j) + seq![orig[j]]);
                Seq::filter_distributes_over_add(orig.take(j), seq![orig[j]], pred);
                lemma_filter_singleton(orig[j], pred);
                assert(self@[i as int] == orig[j]);
            }
            let keep = !guid_eq(&self.bindings[i].clsid, class_id);
            if keep {
                proof {
                    assert(spec_remove_clsid(orig.take(j + 1), *class_id) =~= spec_remove_clsid(
                        orig.take(j),
                        *class_id,
                    ).push(orig[j]));
                    assert(self@ =~= spec_remove_clsid(orig.take(j + 1), *class_id) + orig.skip(
                        j + 1,
                    ));
                    j = j + 1;
                }
                i = i + 1;
            } else {
                let ghost pre = self@;
                self.bindings.remove(i);
                proof {
                    assert(spec_remove_clsid(orig.take(j + 1), *class_id) =~= spec_remove_clsid(
                        orig.take(j),
                        *class_id,
                    ));
                    assert(self@ =~= pre.remove(i as int));
                    assert(pre.remove(i as int) =~= spec_remove_clsid(
                        orig.take(j + 1),
                        *class_id,
                    ) + orig.skip(j + 1));
                    j = j + 1;
                }
            }
        }
        proof {
            assert(orig.skip(j).len() == 0);
            assert(j == orig.len());
            assert(orig.take(j) =~= orig);
            assert(self@ =~= spec_remove_clsid(orig, *class_id));
        }
    }

    /// Publishes one class binding: the class identifier mapped to its
    /// display name, the registering module's path, and the marker that the
    /// module is safe for both threading modes. A previous binding of the
    /// same class is replaced.
    pub fn register_class(&mut self, name: &str, class_id: &Guid, dll_path: &str)
        ensures
            final(self)@ == spec_upsert(
                old(self)@,
                SpecBinding {
                    clsid: *class_id,
                    display_name: name@,
                    dll_path: dll_path@,
                    threading_model: "Both"@,
                },
            ),
    {
        self.unregister_class(class_id);
        let binding = ClassBinding {
            clsid: *class_id,
            display_name: String::from_str(name),
            dll_path: String::from_str(dll_path),
            threading_model: String::from_str("Both"),
        };
        self.bindings.push(binding);
        proof {
            assert(self@ =~= spec_upsert(
                old(self)@,
                SpecBinding {
                    clsid: *class_id,
                    display_name: name@,
                    dll_path: dll_path@,
                    threading_model: "Both"@,
                },
            ));
        }
    }
}

/// Registers the module: publishes a binding for each of the three classes,
/// carrying the module's resolved path, and succeeds. Failures of the real
/// store happen at its own boundary; on one, the caller runs the
/// unregistration path to roll back before reporting the failure, and the
/// cleanup law above guarantees that the rollback leaves no partial binding.
pub fn DllRegisterServer(reg: &mut ClassRegistry, dll_path: &str) -> (r: HRESULT)
    ensures
        r == S_OK,
        final(reg)@ == spec_register_all(old(reg)@, dll_path@),
{
    reg.register_class("DirectPlayVoiceClient", &clsid_client(), dll_path);
    reg.register_class("DirectPlayVoiceServer", &clsid_server(), dll_path);
    reg.register_class("DirectPlayVoiceTest", &clsid_test(), dll_path);
    S_OK
}

/// Unregisters the module: deletes every binding of the three classes,
/// treating an absent binding as success, and succeeds.
pub fn DllUnregisterServer(reg: &mut ClassRegistry) -> (r: HRESULT)
    ensures
        r == S_OK,
        final(reg)@ == spec_unregister_all(old(reg)@),
{
    reg.unregister_class(&clsid_client());
    reg.unregister_class(&clsid_server());
    reg.unregister_class(&clsid_test());
    proof {
        lemma_triple_remove(old(reg)@);
    }
    S_OK
}

/// Deleting the three classes one after the other deletes exactly the
/// bindings of this module's classes.
proof fn lemma_triple_remove(s: Seq<SpecBinding>)
    ensures
        spec_remove_clsid(
            spec_remove_clsid(spec_remove_clsid(s, spec_clsid_client()), spec_clsid_server()),
            spec_clsid_test(),
        ) == spec_unregister_all(s),
    decreases s.len(),
{
    reveal(Seq::filter);
    let c1 = spec_clsid_client();
    let c2 = spec_clsid_server();
    let c3 = spec_clsid_test();
    if s.len() == 0 {
        assert(spec_remove_clsid(s, c1) =~= s);
        assert(spec_remove_clsid(s, c2) =~= s);
        assert(spec_remove_clsid(s, c3) =~= s);
        assert(spec_unregister_all(s) =~= s);
    } else {
        let x = s.drop_last();
        let l = s.last();
        lemma_triple_remove(x);
        assert(s =~= x + seq![l]);
        let r1x = spec_remove_clsid(x, c1);
        let r2x = spec_remove_clsid(r1x, c2);
        let r3x = spec_remove_clsid(r2x, c3);
        Seq::filter_distributes_over_add(x, seq![l], spec_keep_pred(c1));
        lemma_filter_singleton(l, spec_keep_pred(c1));
        let s1 = seq![l].filter(spec_keep_pred(c1));
        assert(spec_remove_clsid(s, c1) == r1x + s1);
        Seq::filter_distributes_over_add(r1x, s1, spec_keep_pred(c2));
        let s2 = s1.filter(spec_keep_pred(c2));
        assert(spec_remove_clsid(spec_remove_clsid(s, c1), c2) == r2x + s2);
        Seq::filter_distributes_over_add(r2x, s2, spec_keep_pred(c3));
        let s3 = s2.filter(spec_keep_pred(c3));
        assert(spec_remove_clsid(spec_remove_clsid(spec_remove_clsid(s, c1), c2), c3) == r3x + s3);
        Seq::filter_distributes_over_add(x, seq![l], spec_foreign_pred());
        lemma_filter_singleton(l, spec_foreign_pred());
        if l.clsid != c1 && l.clsid != c2 && l.clsid != c3 {
            assert(s1 =~= seq![l]);
            lemma_filter_singleton(l, spec_keep_pred(c2));
            assert(s2 =~= seq![l]);
            lemma_filter_singleton(l, spec_keep_pred(c3));
            assert(s3 =~= seq![l]);
            assert(!spec_is_voice_clsid(l.clsid));
        } else {
            assert(s3 =~= Seq::<SpecBinding>::empty()) by {
                if l.clsid == c1 {
                    assert(s1 =~= Seq::<SpecBinding>::empty());
                    assert(s2 =~= Seq::<SpecBinding>::empty());
                    assert(s3 =~= Seq::<SpecBinding>::empty());
                } else if l.clsid == c2 {
                    assert(s1 =~= seq![l]);
                    lemma_filter_singleton(l, spec_keep_pred(c2));
                    assert(s2 =~= Seq::<SpecBinding>::empty());
                    assert(s3 =~= Seq::<SpecBinding>::empty());
                } else {
                    assert(s1 =~= seq![l]);
                    lemma_filter_singleton(l, spec_keep_pred(c2));
                    assert(s2 =~= seq![l]);
                    lemma_filter_singleton(l, spec_keep_pred(c3));
                    assert(s3 =~= Seq::<SpecBinding>::empty());
                }
            }
            assert(spec_is_voice_clsid(l.clsid));
        }
        assert(spec_remove_clsid(
            spec_remove_clsid(spec_remove_clsid(s, c1), c2),
            c3,
        ) =~= spec_unregister_all(s));
    }
}

} // verus!
