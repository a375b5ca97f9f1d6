use vstd::prelude::*;
use crate::errors::HostError;

verus! {

/// One keyed entry of the data a request resource represents: a case-preserved
/// name and the byte-sequence values recorded under it.
pub struct HeaderField {
    pub name: Vec<u8>,
    pub values: Vec<Vec<u8>>,
}

/// The read-only data behind one request-resource handle.
pub struct RequestData {
    pub headers: Vec<HeaderField>,
    pub service_id: String,
}

impl RequestData {
    /// The case-preserved names of the keyed data, in order.
    pub open spec fn names_spec(self) -> Seq<Seq<u8>> {
        self.headers@.map_values(|f: HeaderField| f.name@)
    }
}

/// ASCII lower-casing of one byte; bytes outside the upper-case letters are
/// left as they are.
pub open spec fn ascii_lower(b: u8) -> u8 {
    if 65 <= b <= 90 {
        (b + 32) as u8
    } else {
        b
    }
}

/// Byte sequences that are equal up to ASCII case.
pub open spec fn ci_eq(a: Seq<u8>, b: Seq<u8>) -> bool {
    &&& a.len() == b.len()
    &&& forall|i: int| 0 <= i < a.len() ==> ascii_lower(a[i]) == ascii_lower(b[i])
}

/// Runtime test of [`ci_eq`].
pub fn bytes_eq_ignore_case(a: &[u8], b: &[u8]) -> (r: bool)
    ensures
        r == ci_eq(a@, b@),
{
    if a.len() != b.len() {
        return false;
    }
    let mut i: usize = 0;
    while i < a.len()
        invariant
            0 <= i <= a@.len(),
            a@.len() == b@.len(),
            forall|j: int| 0 <= j < i ==> ascii_lower(a@[j]) == ascii_lower(b@[j]),
        decreases a@.len() - i,
    {
        let x = a[i];
        let y = b[i];
        let lx = if 65 <= x && x <= 90 { x + 32 } else { x };
        let ly = if 65 <= y && y <= 90 { y + 32 } else { y };
        if lx != ly {
            return false;
        }
        i = i + 1;
    }
    true
}

/// The per-run table that resolves opaque resource handles. The host owns it
/// exclusively; the guest only ever holds handle values. A handle is the index
/// at which its data was minted; releasing a handle, or tearing the table
/// down, leaves the index dead, and every later use of it errors.
pub struct ResourceTable {
    pub entries: Vec<RequestData>,
    pub alive: Vec<bool>,
}

impl ResourceTable {
    /// One liveness flag per minted entry.
    pub open spec fn wf(self) -> bool {
        self.alive@.len() == self.entries@.len()
    }

    /// Whether `h` currently resolves.
    pub open spec fn live(self, h: u32) -> bool {
        &&& (h as int) < self.alive@.len()
        &&& self.alive@[h as int]
    }

    /// The data behind a live handle.
    pub open spec fn data_of(self, h: u32) -> RequestData {
        self.entries@[h as int]
    }

    /// A fresh table with no handles minted.
    pub fn new() -> (t: ResourceTable)
        ensures
            t.wf(),
            t.entries@.len() == 0,
            forall|h: u32| !t.live(h),
    {
        ResourceTable { entries: Vec::new(), alive: Vec::new() }
    }

    /// Mint a fresh handle for `data`. The new handle is live and every other
    /// handle keeps its state.
    pub fn mint(&mut self, data: RequestData) -> (h: u32)
        requires
            old(self).wf(),
            old(self).entries@.len() < 0xFFFF_FFFF,
        ensures
            final(self).wf(),
            h as int == old(self).entries@.len(),
            final(self).alive@ == old(self).alive@.push(true),
            final(self).entries@ == old(self).entries@.push(data),
            final(self).live(h),
            final(self).data_of(h) == data,
    {
        let h = self.entries.len() as u32;
        self.entries.push(data);
        self.alive.push(true);
        h
    }

    /// The names of the keyed data behind `h`, case preserved and in order;
    /// an empty sequence if there are none. A dead handle errors.
    pub fn get_header_names(&self, h: u32) -> (r: Result<Vec<Vec<u8>>, HostError>)
        requires
            self.wf(),
        ensures
            !self.live(h) ==> r == Err::<Vec<Vec<u8>>, HostError>(HostError::Trapped),
            self.live(h) ==> (r matches Ok(names)
                && names.deep_view() == self.data_of(h).names_spec()),
    {
        if !((h as usize) < self.alive.len() && self.alive[h as usize]) {
            return Err(HostError::Trapped);
        }
        let data = &self.entries[h as usize];
        let mut names: Vec<Vec<u8>> = Vec::new();
        let mut i: usize = 0;
        while i < data.headers.len()
            invariant
                0 <= i <= data.headers@.len(),
                names@.len() == i,
                forall|k: int| 0 <= k < i ==> #[trigger] names.deep_view()[k]
                    == data.headers@[k].name@,
            decreases data.headers@.len() - i,
        {
            let mut name: Vec<u8> = Vec::new();
            let field_name = &data.headers[i].name;
            let mut j: usize = 0;
            while j < field_name.len()
                invariant
                    0 <= j <= field_name@.len(),
                    name@ =~= field_name@.take(j as int),
                decreases field_name@.len() - j,
            {
                name.push(field_name[j]);
                j = j + 1;
            }
            assert(name@ =~= field_name@);
            assert(name.deep_view() =~= name@);
            let ghost pre_v = names@;
            let ghost pre_dv = names.deep_view();
            names.push(name);
            proof {
                assert forall|k: int| 0 <= k < i + 1 implies #[trigger] names.deep_view()[k]
                    == data.headers@[k].name@ by {
                    assert(names.deep_view()[k] == names@[k].deep_view());
                    if k < i as int {
                        assert(names@[k] == pre_v[k]);
                        assert(pre_dv[k] == pre_v[k].deep_view());
                    }
                }
            }
            i = i + 1;
        }
        assert(names.deep_view() =~~= data.headers@.map_values(|f: HeaderField| f.name@));
        Ok(names)
    }

    /// Case-insensitive lookup of `name` in the keyed data behind `h`:
    /// the values of the first entry whose name matches up to ASCII case,
    /// `None` when no entry matches (distinct from `Some` of an empty value
    /// sequence). A dead handle errors.
    pub fn get(&self, h: u32, name: &[u8]) -> (r: Result<Option<Vec<Vec<u8>>>, HostError>)
        requires
            self.wf(),
        ensures
            !self.live(h) ==> r == Err::<Option<Vec<Vec<u8>>>, HostError>(HostError::Trapped),
            self.live(h) ==> match r {
                Ok(found) => match found {
                    Some(values) => exists|i: int|
                        {
                            &&& 0 <= i < self.data_of(h).headers@.len()
                            &&& ci_eq(self.data_of(h).headers@[i].name@, name@)
                            &&& values.deep_view() == self.data_of(h).headers@[i].values.deep_view()
                            &&& forall|j: int| 0 <= j < i
                                ==> !ci_eq(self.data_of(h).headers@[j].name@, name@)
                        },
                    None => forall|j: int| 0 <= j < self.data_of(h).headers@.len()
                        ==> !ci_eq(self.data_of(h).headers@[j].name@, name@),
                },
                Err(_) => false,
            },
    {
        if !((h as usize) < self.alive.len() && self.alive[h as usize]) {
            return Err(HostError::Trapped);
        }
        let data = &self.entries[h as usize];
        let mut i: usize = 0;
        while i < data.headers.len()
            invariant
                self.wf(),
                self.live(h),
                *data == self.data_of(h),
                0 <= i <= data.headers@.len(),
                forall|j: int| 0 <= j < i ==> !ci_eq(data.headers@[j].name@, name@),
            decreases data.headers@.len() - i,
        {
            if bytes_eq_ignore_case(data.headers[i].name.as_slice(), name) {
                let field_values = &data.headers[i].values;
                let mut values: Vec<Vec<u8>> = Vec::new();
                let mut v: usize = 0;
                while v < field_values.len()
                    invariant
                        0 <= v <= field_values@.len(),
                        values.deep_view() =~~= field_values.deep_view().take(v as int),
                    decreases field_values@.len() - v,
                {
                    let one = &field_values[v];
                    let mut copied: Vec<u8> = Vec::new();
                    let mut j: usize = 0;
                    while j < one.len()
                        invariant
                            0 <= j <= one@.len(),
                            copied@ =~= one@.take(j as int),
                        decreases one@.len() - j,
                    {
                        copied.push(one[j]);
                        j = j + 1;
                    }
                    assert(copied@ =~= one@);
                    values.push(copied);
                    assert(values.deep_view() =~~= field_values.deep_view().take(v as int + 1));
                    v = v + 1;
                }
                assert(values.deep_view() =~~= field_values.deep_view());
                return Ok(Some(values));
            }
            i = i + 1;
        }
        Ok(None)
    }

    /// The identifier of the service behind `h`; valid UTF-8 by construction.
    /// A dead handle errors.
    pub fn get_service_id(&self, h: u32) -> (r: Result<String, HostError>)
        requires
            self.wf(),
        ensures
            !self.live(h) ==> r == Err::<String, HostError>(HostError::Trapped),
            self.live(h) ==> (r matches Ok(sid) && sid@ == self.data_of(h).service_id@),
    {
        if !((h as usize) < self.alive.len() && self.alive[h as usize]) {
            return Err(HostError::Trapped);
        }
        Ok(self.entries[h as usize].service_id.clone())
    }

    /// Release `h` after a drop notification from the guest. Dropping a dead
    /// handle — released already, or never minted — errors deterministically
    /// rather than being ignored: a second drop of the same handle is a guest
    /// bug this host refuses to paper over.
    pub fn drop_handle(&mut self, h: u32) -> (r: Result<(), HostError>)
        requires
            old(self).wf(),
        ensures
            final(self).wf(),
            !old(self).live(h) ==> {
                &&& r == Err::<(), HostError>(HostError::Trapped)
                &&& final(self).alive@ == old(self).alive@
                &&& final(self).entries@ == old(self).entries@
            },
            old(self).live(h) ==> {
                &&& r == Ok::<(), HostError>(())
                &&& final(self).alive@ == old(self).alive@.update(h as int, false)
                &&& final(self).entries@ == old(self).entries@
            },
    {
        if (h as usize) < self.alive.len() && self.alive[h as usize] {
            self.alive.set(h as usize, false);
            Ok(())
        } else {
            Err(HostError::Trapped)
        }
    }

    /// Tear the table down: every handle — dropped by the guest or not — is
    /// dead afterwards. This runs when the execution context that owns the
    /// table is destroyed, on the success, trap, timeout and cancellation
    /// paths alike.
    pub fn invalidate_all(&mut self)
        requires
            old(self).wf(),
        ensures
            final(self).wf(),
            final(self).entries@ == old(self).entries@,
            final(self).alive@.len() == old(self).alive@.len(),
            forall|h: u32| !final(self).live(h),
    {
        let mut i: usize = 0;
        while i < self.alive.len()
            invariant
                0 <= i <= self.alive@.len(),
                self.wf(),
                self.alive@.len() == old(self).alive@.len(),
                self.entries@ == old(self).entries@,
                forall|j: int| 0 <= j < i ==> self.alive@[j] == false,
            decreases self.alive@.len() - i,
        {
            self.alive.set(i, false);
            i = i + 1;
        }
    }
}

/// Handle scope law: once a table has been torn down, no handle resolves any
/// more — whether or not the guest ever sent a drop notification for it — so
/// no handle outlives the run whose execution context minted it.
pub proof fn lemma_handle_scope(t: ResourceTable, h: u32)
    requires
        forall|g: u32| !t.live(g),
    ensures
        !t.live(h),
{
}

} // verus!
