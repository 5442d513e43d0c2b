//! Object store model: validated byte payloads keyed by identifier and
//! extension, where a later write under the same name overwrites an
//! earlier one.

use vstd::prelude::*;
use vstd::string::StringExecFns;

verus! {

/// One stored object: its public identifier, the extension derived from
/// its sniffed type, and its byte payload.
#[derive(Debug)]
pub struct StoredObject {
    pub identifier: String,
    pub extension: String,
    pub data: Vec<u8>,
}

/// The object store, in write order.
#[derive(Debug)]
pub struct ObjectStore {
    objects: Vec<StoredObject>,
}

/// The payload stored under `id`.`ext`: the most recent write wins.
pub open spec fn stored_bytes(objects: Seq<StoredObject>, id: Seq<char>, ext: Seq<char>) -> Option<
    Seq<u8>,
>
    decreases objects.len(),
{
    if objects.len() == 0 {
        None
    } else if objects.last().identifier@ == id && objects.last().extension@ == ext {
        Some(objects.last().data@)
    } else {
        stored_bytes(objects.drop_last(), id, ext)
    }
}

impl View for ObjectStore {
    type V = Seq<StoredObject>;

    closed spec fn view(&self) -> Seq<StoredObject> {
        self.objects@
    }
}

impl ObjectStore {
    /// An empty store.
    pub fn new() -> (r: ObjectStore)
        ensures
            r@ == Seq::<StoredObject>::empty(),
    {
        ObjectStore { objects: Vec::new() }
    }

    /// How many writes the store has taken.
    pub fn object_count(&self) -> (r: usize)
        ensures
            r == self@.len(),
    {
        self.objects.len()
    }

    /// Write `data` under `identifier`.`extension`. A colliding prior
    /// object under the same name is overwritten, not protected.
    pub fn persist(&mut self, identifier: String, extension: String, data: Vec<u8>)
        ensures
            final(self)@ == old(self)@.push(StoredObject { identifier, extension, data }),
            stored_bytes(final(self)@, identifier@, extension@) == Some(data@),
    {
        self.objects.push(StoredObject { identifier, extension, data });
        proof {
            assert(self@.drop_last() =~= old(self)@);
            assert(self@.last() == StoredObject { identifier, extension, data });
        }
    }

    /// The bytes stored under `identifier`.`extension`, if any; the most
    /// recent write under that name.
    pub fn retrieve(&self, identifier: &String, extension: &String) -> (r: Option<Vec<u8>>)
        ensures
            (r matches Some(d) ==> stored_bytes(self@, identifier@, extension@) == Some(d@)),
            (r is None ==> stored_bytes(self@, identifier@, extension@) is None),
    {
        let n = self.objects.len();
        let mut i: usize = n;
        proof {
            assert(self@.subrange(0, n as int) =~= self@);
        }
        while i > 0
            invariant
                0 <= i <= n,
                n == self.objects.len(),
                stored_bytes(self@, identifier@, extension@) == stored_bytes(
                    self@.subrange(0, i as int),
                    identifier@,
                    extension@,
                ),
            decreases i,
        {
            i = i - 1;
            let obj = &self.objects[i];
            if obj.identifier == *identifier && obj.extension == *extension {
                proof {
                    assert(self@.subrange(0, i + 1 as int).last() == self@[i as int]);
                }
                return Some(copy_bytes(&obj.data));
            }
            proof {
                assert(self@.subrange(0, i + 1 as int).last() == self@[i as int]);
                assert(self@.subrange(0, i + 1 as int).drop_last() =~= self@.subrange(
                    0,
                    i as int,
                ));
            }
        }
        proof {
            assert(self@.subrange(0, 0) =~= Seq::<StoredObject>::empty());
        }
        None
    }
}

/// A fresh copy of a byte buffer.
pub fn copy_bytes(v: &Vec<u8>) -> (r: Vec<u8>)
    ensures
        r@ == v@,
{
    let mut out: Vec<u8> = Vec::new();
    let mut i: usize = 0;
    while i < v.len()
        invariant
            0 <= i <= v.len(),
            out@ == v@.subrange(0, i as int),
        decreases v.len() - i,
    {
        out.push(v[i]);
        proof {
            assert(v@.subrange(0, i + 1 as int) =~= v@.subrange(0, i as int).push(v@[i as int]));
        }
        i = i + 1;
    }
    proof {
        assert(v@.subrange(0, v@.len() as int) =~= v@);
    }
    out
}

/// The public URL under which a stored object is served.
pub open spec fn url_view(base: Seq<char>, id: Seq<char>, ext: Seq<char>) -> Seq<char> {
    base + "/"@ + id + "."@ + ext
}

/// Build the public URL `base`/`id`.`ext`.
pub fn public_url(base: &String, id: &String, ext: &String) -> (r: String)
    ensures
        r@ == url_view(base@, id@, ext@),
{
    let mut r = base.clone();
    r.append("/");
    r.append(id.as_str());
    r.append(".");
    r.append(ext.as_str());
    r
}

/// Round trip: bytes persisted under an identifier and extension are the
/// bytes stored under that name afterwards, whatever was stored before.
pub proof fn lemma_round_trip(objects: Seq<StoredObject>, obj: StoredObject)
    ensures
        stored_bytes(objects.push(obj), obj.identifier@, obj.extension@) == Some(obj.data@),
{
    assert(objects.push(obj).last() == obj);
}

/// A write under one name leaves what is stored under every other name
/// unchanged.
pub proof fn lemma_persist_frame(
    objects: Seq<StoredObject>,
    obj: StoredObject,
    id: Seq<char>,
    ext: Seq<char>,
)
    requires
        obj.identifier@ != id || obj.extension@ != ext,
    ensures
        stored_bytes(objects.push(obj), id, ext) == stored_bytes(objects, id, ext),
{
    assert(objects.push(obj).last() == obj);
    assert(objects.push(obj).drop_last() =~= objects);
}

} // verus!
