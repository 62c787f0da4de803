//! The in-memory state store: containers and images created by this process,
//! each collection owned by one value that a caller guards with its own lock.
use vstd::prelude::*;
use crate::ids::{decimal, id_text, lemma_decimal_injective};
use crate::invoker::RuntimeError;
use crate::models::{Container, Image, SystemStats};

verus! {

/// The status of a container that was created and never started.
pub const STATUS_CREATED: &'static str = "created";

/// The status of a started container.
pub const STATUS_RUNNING: &'static str = "running";

/// The status of a stopped container.
pub const STATUS_STOPPED: &'static str = "stopped";

/// Records with four fields each, the identifier first.
pub open spec fn well_shaped(recs: Seq<Seq<Seq<char>>>) -> bool {
    forall|i: int| 0 <= i < recs.len() ==> #[trigger] recs[i].len() == 4
}

/// No two records share an identifier.
pub open spec fn ids_unique(recs: Seq<Seq<Seq<char>>>) -> bool {
    forall|i: int, j: int| 0 <= i < j < recs.len() ==> #[trigger] recs[i][0] != #[trigger] recs[j][0]
}

/// The first position of a record with identifier `id`.
pub open spec fn find_id(recs: Seq<Seq<Seq<char>>>, id: Seq<char>) -> Option<int>
    decreases recs.len(),
{
    if recs.len() == 0 {
        None
    } else {
        match find_id(recs.drop_last(), id) {
            Some(i) => Some(i),
            None => if recs.last()[0] == id {
                Some(recs.len() - 1)
            } else {
                None
            },
        }
    }
}

/// The records after setting the status of the record `id`; unchanged where
/// there is none.
pub open spec fn with_status(recs: Seq<Seq<Seq<char>>>, id: Seq<char>, status: Seq<char>) -> Seq<
    Seq<Seq<char>>,
> {
    match find_id(recs, id) {
        Some(i) => recs.update(i, recs[i].update(3, status)),
        None => recs,
    }
}

/// The status of the record `id`, if there is one.
pub open spec fn status_of(recs: Seq<Seq<Seq<char>>>, id: Seq<char>) -> Option<Seq<char>> {
    match find_id(recs, id) {
        Some(i) => Some(recs[i][3]),
        None => None,
    }
}

/// The records without the record `id`; unchanged where there is none.
pub open spec fn without_id(recs: Seq<Seq<Seq<char>>>, id: Seq<char>) -> Seq<Seq<Seq<char>>> {
    match find_id(recs, id) {
        Some(i) => recs.remove(i),
        None => recs,
    }
}

/// The number of records whose status is `running`.
pub open spec fn running_count(recs: Seq<Seq<Seq<char>>>) -> nat
    decreases recs.len(),
{
    if recs.len() == 0 {
        0
    } else {
        running_count(recs.drop_last()) + if recs.last()[3] == STATUS_RUNNING@ {
            1nat
        } else {
            0nat
        }
    }
}

pub proof fn lemma_find_id_bounds(recs: Seq<Seq<Seq<char>>>, id: Seq<char>)
    ensures
        find_id(recs, id) matches Some(i) ==> 0 <= i < recs.len() && recs[i][0] == id,
        find_id(recs, id) is None ==> forall|i: int| 0 <= i < recs.len() ==> #[trigger] recs[i][0] != id,
    decreases recs.len(),
{
    if recs.len() > 0 {
        lemma_find_id_bounds(recs.drop_last(), id);
        assert forall|i: int| 0 <= i < recs.len() - 1 implies recs.drop_last()[i] == #[trigger] recs[i] by {}
    }
}

/// Records with the same identifiers at the same places are searched alike.
pub proof fn lemma_find_id_same_ids(a: Seq<Seq<Seq<char>>>, b: Seq<Seq<Seq<char>>>, id: Seq<char>)
    requires
        a.len() == b.len(),
        forall|i: int| 0 <= i < a.len() ==> #[trigger] a[i][0] == b[i][0],
    ensures
        find_id(a, id) == find_id(b, id),
    decreases a.len(),
{
    if a.len() > 0 {
        assert forall|i: int| 0 <= i < a.len() - 1 implies #[trigger] a.drop_last()[i][0]
            == b.drop_last()[i][0] by {
            assert(a.drop_last()[i] == a[i]);
            assert(b.drop_last()[i] == b[i]);
        }
        lemma_find_id_same_ids(a.drop_last(), b.drop_last(), id);
        assert(a.last()[0] == b.last()[0]);
    }
}

/// Setting a status keeps every identifier in its place.
pub proof fn lemma_with_status_keeps_ids(recs: Seq<Seq<Seq<char>>>, id: Seq<char>, status: Seq<char>)
    requires
        well_shaped(recs),
    ensures
        with_status(recs, id, status).len() == recs.len(),
        well_shaped(with_status(recs, id, status)),
        forall|i: int|
            0 <= i < recs.len() ==> #[trigger] with_status(recs, id, status)[i][0] == recs[i][0],
        find_id(with_status(recs, id, status), id) == find_id(recs, id),
{
    lemma_find_id_bounds(recs, id);
    let w = with_status(recs, id, status);
    assert forall|i: int| 0 <= i < recs.len() implies #[trigger] w[i][0] == recs[i][0] && w[i].len()
        == 4 by {
        assert(recs[i].len() == 4);
    }
    lemma_find_id_same_ids(w, recs, id);
}

/// Where the last of two status changes on one identifier wins.
pub proof fn lemma_last_status_wins(
    recs: Seq<Seq<Seq<char>>>,
    id: Seq<char>,
    first: Seq<char>,
    second: Seq<char>,
)
    requires
        well_shaped(recs),
        find_id(recs, id) is Some,
    ensures
        status_of(with_status(with_status(recs, id, first), id, second), id) == Some(second),
{
    lemma_with_status_keeps_ids(recs, id, first);
    let w = with_status(recs, id, first);
    lemma_with_status_keeps_ids(w, id, second);
    lemma_find_id_bounds(recs, id);
    let i = find_id(recs, id)->Some_0;
    assert(w[i].len() == 4);
}

/// Starting and then stopping a stored container leaves it stopped.
pub proof fn lemma_start_then_stop(recs: Seq<Seq<Seq<char>>>, id: Seq<char>)
    requires
        well_shaped(recs),
        find_id(recs, id) is Some,
    ensures
        status_of(
            with_status(with_status(recs, id, STATUS_RUNNING@), id, STATUS_STOPPED@),
            id,
        ) == Some(STATUS_STOPPED@),
{
    lemma_last_status_wins(recs, id, STATUS_RUNNING@, STATUS_STOPPED@);
}

/// Stopping and then starting a stored container leaves it running.
pub proof fn lemma_stop_then_start(recs: Seq<Seq<Seq<char>>>, id: Seq<char>)
    requires
        well_shaped(recs),
        find_id(recs, id) is Some,
    ensures
        status_of(
            with_status(with_status(recs, id, STATUS_STOPPED@), id, STATUS_RUNNING@),
            id,
        ) == Some(STATUS_RUNNING@),
{
    lemma_last_status_wins(recs, id, STATUS_STOPPED@, STATUS_RUNNING@);
}

/// A status change on an unknown identifier changes nothing, however often it
/// is repeated.
pub proof fn lemma_unknown_id_unchanged(recs: Seq<Seq<Seq<char>>>, id: Seq<char>, status: Seq<char>)
    requires
        find_id(recs, id) is None,
    ensures
        with_status(recs, id, status) == recs,
        status_of(recs, id) is None,
        without_id(recs, id) == recs,
{
}

/// The containers created by this process.
pub struct ContainerStore {
    items: Vec<Container>,
    next_serial: u64,
    serials: Ghost<Seq<nat>>,
}

impl ContainerStore {
    /// The stored containers, each as its four fields, in insertion order.
    pub closed spec fn records(&self) -> Seq<Seq<Seq<char>>> {
        self.items@.map_values(|c: Container| c.field_views())
    }

    /// Every identifier is the text of a serial number handed out before, so
    /// no two records share one.
    pub closed spec fn wf(&self) -> bool {
        &&& self.serials@.len() == self.items@.len()
        &&& forall|i: int| 0 <= i < self.items@.len() ==> #[trigger] self.serials@[i] < self.next_serial
        &&& forall|i: int|
            0 <= i < self.items@.len() ==> #[trigger] self.items@[i].id@ == decimal(self.serials@[i])
        &&& ids_unique(self.records())
    }

    /// Every serial number has been handed out.
    pub closed spec fn exhausted(&self) -> bool {
        self.next_serial == u64::MAX
    }

    /// No two stored records share an identifier, however the store was
    /// reached through its operations, and every record has its four fields.
    pub proof fn lemma_ids_unique(&self)
        requires
            self.wf(),
        ensures
            well_shaped(self.records()),
            ids_unique(self.records()),
    {
    }

    pub fn new() -> (s: ContainerStore)
        ensures
            s.wf(),
            s.records() == Seq::<Seq<Seq<char>>>::empty(),
            !s.exhausted(),
    {
        let s = ContainerStore { items: Vec::new(), next_serial: 0, serials: Ghost(Seq::empty()) };
        assert(s.records() =~= Seq::<Seq<Seq<char>>>::empty());
        s
    }

    /// The number of stored containers.
    pub fn len(&self) -> (r: usize)
        ensures
            r == self.records().len(),
    {
        self.items.len()
    }

    /// A copy of every stored container, in insertion order.
    pub fn list(&self) -> (r: Vec<Container>)
        ensures
            r@.map_values(|c: Container| c.field_views()) == self.records(),
    {
        let mut r: Vec<Container> = Vec::new();
        let mut i: usize = 0;
        while i < self.items.len()
            invariant
                i <= self.items@.len(),
                r@.map_values(|c: Container| c.field_views()) == self.records().take(i as int),
            decreases self.items@.len() - i,
        {
            let c = self.items[i].copy();
            proof {
                assert(self.records().take(i + 1) =~= self.records().take(i as int).push(
                    c.field_views(),
                ));
                assert(r@.push(c).map_values(|c: Container| c.field_views()) =~= r@.map_values(
                    |c: Container| c.field_views(),
                ).push(c.field_views()));
            }
            r.push(c);
            i = i + 1;
        }
        assert(self.records().take(i as int) =~= self.records());
        r
    }

    /// The position of the container `id`.
    fn position(&self, id: &str) -> (r: Option<usize>)
        ensures
            r is Some <==> find_id(self.records(), id@) is Some,
            r matches Some(i) ==> find_id(self.records(), id@) == Some(i as int) && i
                < self.items@.len(),
    {
        let key = id.to_owned();
        let mut i: usize = 0;
        while i < self.items.len()
            invariant
                i <= self.items@.len(),
                key@ == id@,
                find_id(self.records().take(i as int), id@) is None,
            decreases self.items@.len() - i,
        {
            let ghost pre = self.records().take(i as int);
            let ghost next = self.records().take(i + 1);
            assert(next.drop_last() =~= pre);
            assert(next.last() == self.items@[i as int].field_views());
            if self.items[i].id == key {
                assert(find_id(self.records().take(i + 1), id@) == Some(i as int));
                proof {
                    self.lemma_find_in_prefix(id@, i + 1);
                }
                assert(i < self.items@.len());
                return Some(i);
            }
            i = i + 1;
        }
        assert(self.records().take(i as int) =~= self.records());
        None
    }

    /// A first match within a prefix is the first match overall.
    proof fn lemma_find_in_prefix(&self, id: Seq<char>, k: int)
        requires
            0 <= k <= self.records().len(),
            find_id(self.records().take(k), id) is Some,
        ensures
            find_id(self.records(), id) == find_id(self.records().take(k), id),
        decreases self.records().len() - k,
    {
        if k < self.records().len() {
            assert(self.records().take(k + 1).drop_last() =~= self.records().take(k));
            self.lemma_find_in_prefix(id, k + 1);
        } else {
            assert(self.records().take(k) =~= self.records());
        }
    }

    /// Creates a container record with a fresh identifier and status
    /// `created`; `None` once every serial number has been handed out.
    pub fn create_container(&mut self, name: String, image: String) -> (r: Option<Container>)
        requires
            old(self).wf(),
        ensures
            final(self).wf(),
            r is None <==> old(self).exhausted(),
            r is None ==> final(self).records() == old(self).records(),
            r matches Some(c) ==> {
                &&& c.name@ == name@
                &&& c.image@ == image@
                &&& c.status@ == STATUS_CREATED@
                &&& forall|i: int|
                    0 <= i < old(self).records().len() ==> #[trigger] old(self).records()[i][0]
                        != c.id@
                &&& final(self).records() == old(self).records().push(c.field_views())
            },
    {
        if self.next_serial == u64::MAX {
            return None;
        }
        let serial = self.next_serial;
        let id = id_text(serial);
        let c = Container { id, name, image, status: STATUS_CREATED.to_owned() };
        let stored = c.copy();
        let ghost old_records = self.records();
        proof {
            assert forall|i: int| 0 <= i < old_records.len() implies #[trigger] old_records[i][0]
                != c.id@ by {
                assert(old_records[i] == self.items@[i].field_views());
                if self.items@[i].id@ == c.id@ {
                    lemma_decimal_injective(self.serials@[i], serial as nat);
                }
            }
        }
        self.items.push(stored);
        self.next_serial = serial + 1;
        self.serials = Ghost(self.serials@.push(serial as nat));
        proof {
            assert(self.records() =~= old_records.push(c.field_views()));
            assert forall|i: int, j: int| 0 <= i < j < self.records().len() implies #[trigger] self.records()[i][0]
                != #[trigger] self.records()[j][0] by {
                if j < old_records.len() {
                    assert(self.records()[i] == old_records[i]);
                    assert(self.records()[j] == old_records[j]);
                }
            }
            assert forall|i: int| 0 <= i < self.items@.len() implies #[trigger] self.serials@[i]
                < self.next_serial by {
                if i < old_records.len() {
                    assert(self.serials@[i] == old(self).serials@[i]);
                }
            }
            assert forall|i: int| 0 <= i < self.items@.len() implies #[trigger] self.items@[i].id@
                == decimal(self.serials@[i]) by {
                if i < old_records.len() {
                    assert(self.items@[i] == old(self).items@[i]);
                    assert(self.serials@[i] == old(self).serials@[i]);
                    assert(old(self).items@[i].id@ == decimal(old(self).serials@[i]));
                } else {
                    assert(self.items@[i] == stored);
                    assert(stored.field_views()[0] == stored.id@);
                    assert(c.field_views()[0] == c.id@);
                }
            }
            assert(self.serials@.len() == self.items@.len());
            assert(ids_unique(self.records()));
        }
        Some(c)
    }

    /// Sets the status of the container `id`; `NotFound` and no change where
    /// there is none.
    fn set_status(&mut self, id: &str, status: &str) -> (r: Result<(), RuntimeError>)
        requires
            old(self).wf(),
        ensures
            final(self).wf(),
            final(self).exhausted() == old(self).exhausted(),
            final(self).records() == with_status(old(self).records(), id@, status@),
            r is Err <==> find_id(old(self).records(), id@) is None,
            r is Err ==> (r matches Err(RuntimeError::NotFound(m)) && m@ == id@),
    {
        match self.position(id) {
            None => Err(RuntimeError::NotFound(id.to_owned())),
            Some(i) => {
                let ghost old_records = self.records();
                let old_c = &self.items[i];
                let c = Container {
                    id: old_c.id.clone(),
                    name: old_c.name.clone(),
                    image: old_c.image.clone(),
                    status: status.to_owned(),
                };
                let ghost cv = c.field_views();
                assert(cv =~= old_records[i as int].update(3, status@));
                self.items.set(i, c);
                proof {
                    assert(self.records() =~~= old_records.update(
                        i as int,
                        old_records[i as int].update(3, status@),
                    ));
                    lemma_with_status_keeps_ids(old_records, id@, status@);
                    assert forall|k: int| 0 <= k < self.items@.len() implies #[trigger] self.items@[k].id@
                        == decimal(self.serials@[k]) by {
                        assert(old(self).items@[k].id@ == decimal(self.serials@[k]));
                        assert(self.records()[k][0] == self.items@[k].id@);
                        assert(old_records[k][0] == old(self).items@[k].id@);
                    }
                    assert forall|a: int, b: int| 0 <= a < b < self.records().len() implies #[trigger] self.records()[a][0]
                        != #[trigger] self.records()[b][0] by {
                        assert(self.records()[a][0] == old_records[a][0]);
                        assert(self.records()[b][0] == old_records[b][0]);
                    }
                    assert(self.serials@.len() == self.items@.len());
                    assert(ids_unique(self.records()));
                }
                Ok(())
            },
        }
    }

    /// Marks the container `id` running.
    pub fn start_container(&mut self, id: &str) -> (r: Result<String, RuntimeError>)
        requires
            old(self).wf(),
        ensures
            final(self).wf(),
            final(self).exhausted() == old(self).exhausted(),
            final(self).records() == with_status(old(self).records(), id@, STATUS_RUNNING@),
            r is Err <==> find_id(old(self).records(), id@) is None,
            r is Err ==> (r matches Err(RuntimeError::NotFound(m)) && m@ == id@),
            r is Ok ==> r->Ok_0@ == "Container started"@,
    {
        self.set_status(id, STATUS_RUNNING)?;
        Ok("Container started".to_owned())
    }

    /// Marks the container `id` stopped.
    pub fn stop_container(&mut self, id: &str) -> (r: Result<String, RuntimeError>)
        requires
            old(self).wf(),
        ensures
            final(self).wf(),
            final(self).exhausted() == old(self).exhausted(),
            final(self).records() == with_status(old(self).records(), id@, STATUS_STOPPED@),
            r is Err <==> find_id(old(self).records(), id@) is None,
            r is Err ==> (r matches Err(RuntimeError::NotFound(m)) && m@ == id@),
            r is Ok ==> r->Ok_0@ == "Container stopped"@,
    {
        self.set_status(id, STATUS_STOPPED)?;
        Ok("Container stopped".to_owned())
    }

    /// Removes the container `id`; `NotFound` and no change where there is
    /// none.
    pub fn remove_container(&mut self, id: &str) -> (r: Result<String, RuntimeError>)
        requires
            old(self).wf(),
        ensures
            final(self).wf(),
            final(self).exhausted() == old(self).exhausted(),
            final(self).records() == without_id(old(self).records(), id@),
            r is Err <==> find_id(old(self).records(), id@) is None,
            r is Err ==> (r matches Err(RuntimeError::NotFound(m)) && m@ == id@),
            r is Ok ==> r->Ok_0@ == "Container removed"@,
    {
        match self.position(id) {
            None => Err(RuntimeError::NotFound(id.to_owned())),
            Some(i) => {
                let ghost old_records = self.records();
                self.items.remove(i);
                self.serials = Ghost(self.serials@.remove(i as int));
                proof {
                    assert(self.records() =~= old_records.remove(i as int));
                    assert forall|k: int| 0 <= k < self.items@.len() implies #[trigger] self.serials@[k]
                        < self.next_serial by {
                        if k >= i {
                            assert(self.serials@[k] == old(self).serials@[k + 1]);
                        }
                    }
                    assert forall|k: int| 0 <= k < self.items@.len() implies #[trigger] self.items@[k].id@
                        == decimal(self.serials@[k]) by {
                        if k >= i {
                            assert(self.items@[k] == old(self).items@[k + 1]);
                            assert(self.serials@[k] == old(self).serials@[k + 1]);
                        }
                    }
                    assert forall|a: int, b: int| 0 <= a < b < self.records().len() implies #[trigger] self.records()[a][0]
                        != #[trigger] self.records()[b][0] by {
                        let oa = if a < i { a } else { a + 1 };
                        let ob = if b < i { b } else { b + 1 };
                        assert(self.records()[a] == old_records[oa]);
                        assert(self.records()[b] == old_records[ob]);
                    }
                }
                Ok("Container removed".to_owned())
            },
        }
    }

    /// The number of running containers.
    pub fn running_count(&self) -> (r: usize)
        ensures
            r == running_count(self.records()),
    {
        let running = STATUS_RUNNING.to_owned();
        let mut n: usize = 0;
        let mut i: usize = 0;
        while i < self.items.len()
            invariant
                i <= self.items@.len(),
                running@ == STATUS_RUNNING@,
                n == running_count(self.records().take(i as int)),
                n <= i,
            decreases self.items@.len() - i,
        {
            let ghost next = self.records().take(i + 1);
            assert(next.drop_last() =~= self.records().take(i as int));
            assert(next.last() == self.items@[i as int].field_views());
            if self.items[i].status == running {
                n = n + 1;
            }
            i = i + 1;
        }
        assert(self.records().take(i as int) =~= self.records());
        n
    }
}

/// The images pulled into this process.
pub struct ImageStore {
    items: Vec<Image>,
    next_serial: u64,
    serials: Ghost<Seq<nat>>,
}

impl ImageStore {
    /// The stored images, each as its four fields, in insertion order.
    pub closed spec fn records(&self) -> Seq<Seq<Seq<char>>> {
        self.items@.map_values(|c: Image| c.field_views())
    }

    /// Every identifier is the text of a serial number handed out before, so
    /// no two records share one.
    pub closed spec fn wf(&self) -> bool {
        &&& self.serials@.len() == self.items@.len()
        &&& forall|i: int| 0 <= i < self.items@.len() ==> #[trigger] self.serials@[i] < self.next_serial
        &&& forall|i: int|
            0 <= i < self.items@.len() ==> #[trigger] self.items@[i].id@ == decimal(self.serials@[i])
        &&& ids_unique(self.records())
    }

    /// Every serial number has been handed out.
    pub closed spec fn exhausted(&self) -> bool {
        self.next_serial == u64::MAX
    }

    /// No two stored records share an identifier, however the store was
    /// reached through its operations, and every record has its four fields.
    pub proof fn lemma_ids_unique(&self)
        requires
            self.wf(),
        ensures
            well_shaped(self.records()),
            ids_unique(self.records()),
    {
    }

    pub fn new() -> (s: ImageStore)
        ensures
            s.wf(),
            s.records() == Seq::<Seq<Seq<char>>>::empty(),
            !s.exhausted(),
    {
        let s = ImageStore { items: Vec::new(), next_serial: 0, serials: Ghost(Seq::empty()) };
        assert(s.records() =~= Seq::<Seq<Seq<char>>>::empty());
        s
    }

    /// The number of stored images.
    pub fn len(&self) -> (r: usize)
        ensures
            r == self.records().len(),
    {
        self.items.len()
    }

    /// A copy of every stored image, in insertion order.
    pub fn list(&self) -> (r: Vec<Image>)
        ensures
            r@.map_values(|c: Image| c.field_views()) == self.records(),
    {
        let mut r: Vec<Image> = Vec::new();
        let mut i: usize = 0;
        while i < self.items.len()
            invariant
                i <= self.items@.len(),
                r@.map_values(|c: Image| c.field_views()) == self.records().take(i as int),
            decreases self.items@.len() - i,
        {
            let c = self.items[i].copy();
            proof {
                assert(self.records().take(i + 1) =~= self.records().take(i as int).push(
                    c.field_views(),
                ));
                assert(r@.push(c).map_values(|c: Image| c.field_views()) =~= r@.map_values(
                    |c: Image| c.field_views(),
                ).push(c.field_views()));
            }
            r.push(c);
            i = i + 1;
        }
        assert(self.records().take(i as int) =~= self.records());
        r
    }

    /// The position of the image `id`.
    fn position(&self, id: &str) -> (r: Option<usize>)
        ensures
            r is Some <==> find_id(self.records(), id@) is Some,
            r matches Some(i) ==> find_id(self.records(), id@) == Some(i as int) && i
                < self.items@.len(),
    {
        let key = id.to_owned();
        let mut i: usize = 0;
        while i < self.items.len()
            invariant
                i <= self.items@.len(),
                key@ == id@,
                find_id(self.records().take(i as int), id@) is None,
            decreases self.items@.len() - i,
        {
            let ghost pre = self.records().take(i as int);
            let ghost next = self.records().take(i + 1);
            assert(next.drop_last() =~= pre);
            assert(next.last() == self.items@[i as int].field_views());
            if self.items[i].id == key {
                assert(find_id(self.records().take(i + 1), id@) == Some(i as int));
                proof {
                    self.lemma_find_in_prefix(id@, i + 1);
                }
                assert(i < self.items@.len());
                return Some(i);
            }
            i = i + 1;
        }
        assert(self.records().take(i as int) =~= self.records());
        None
    }

    /// A first match within a prefix is the first match overall.
    proof fn lemma_find_in_prefix(&self, id: Seq<char>, k: int)
        requires
            0 <= k <= self.records().len(),
            find_id(self.records().take(k), id) is Some,
        ensures
            find_id(self.records(), id) == find_id(self.records().take(k), id),
        decreases self.records().len() - k,
    {
        if k < self.records().len() {
            assert(self.records().take(k + 1).drop_last() =~= self.records().take(k));
            self.lemma_find_in_prefix(id, k + 1);
        } else {
            assert(self.records().take(k) =~= self.records());
        }
    }

    /// Records an image `name:tag` under a fresh identifier, with no size
    /// known; `None` once every serial number has been handed out.
    pub fn pull_image(&mut self, name: String, tag: String) -> (r: Option<Image>)
        requires
            old(self).wf(),
        ensures
            final(self).wf(),
            r is None <==> old(self).exhausted(),
            r is None ==> final(self).records() == old(self).records(),
            r matches Some(m) ==> {
                &&& m.name@ == name@
                &&& m.tag@ == tag@
                &&& m.size@ == Seq::<char>::empty()
                &&& forall|i: int|
                    0 <= i < old(self).records().len() ==> #[trigger] old(self).records()[i][0]
                        != m.id@
                &&& final(self).records() == old(self).records().push(m.field_views())
            },
    {
        if self.next_serial == u64::MAX {
            return None;
        }
        let serial = self.next_serial;
        let id = id_text(serial);
        let c = Image { id, name, tag, size: String::new() };
        let stored = c.copy();
        let ghost old_records = self.records();
        proof {
            assert forall|i: int| 0 <= i < old_records.len() implies #[trigger] old_records[i][0]
                != c.id@ by {
                assert(old_records[i] == self.items@[i].field_views());
                if self.items@[i].id@ == c.id@ {
                    lemma_decimal_injective(self.serials@[i], serial as nat);
                }
            }
        }
        self.items.push(stored);
        self.next_serial = serial + 1;
        self.serials = Ghost(self.serials@.push(serial as nat));
        proof {
            assert(self.records() =~= old_records.push(c.field_views()));
            assert forall|i: int, j: int| 0 <= i < j < self.records().len() implies #[trigger] self.records()[i][0]
                != #[trigger] self.records()[j][0] by {
                if j < old_records.len() {
                    assert(self.records()[i] == old_records[i]);
                    assert(self.records()[j] == old_records[j]);
                }
            }
            assert forall|i: int| 0 <= i < self.items@.len() implies #[trigger] self.serials@[i]
                < self.next_serial by {
                if i < old_records.len() {
                    assert(self.serials@[i] == old(self).serials@[i]);
                }
            }
            assert forall|i: int| 0 <= i < self.items@.len() implies #[trigger] self.items@[i].id@
                == decimal(self.serials@[i]) by {
                if i < old_records.len() {
                    assert(self.items@[i] == old(self).items@[i]);
                    assert(self.serials@[i] == old(self).serials@[i]);
                    assert(old(self).items@[i].id@ == decimal(old(self).serials@[i]));
                } else {
                    assert(self.items@[i] == stored);
                    assert(stored.field_views()[0] == stored.id@);
                    assert(c.field_views()[0] == c.id@);
                }
            }
        }
        Some(c)
    }

    /// Removes the image `id`; `NotFound` and no change where there is
    /// none.
    pub fn remove_image(&mut self, id: &str) -> (r: Result<String, RuntimeError>)
        requires
            old(self).wf(),
        ensures
            final(self).wf(),
            final(self).exhausted() == old(self).exhausted(),
            final(self).records() == without_id(old(self).records(), id@),
            r is Err <==> find_id(old(self).records(), id@) is None,
            r is Err ==> (r matches Err(RuntimeError::NotFound(m)) && m@ == id@),
            r is Ok ==> r->Ok_0@ == "Image removed"@,
    {
        match self.position(id) {
            None => Err(RuntimeError::NotFound(id.to_owned())),
            Some(i) => {
                let ghost old_records = self.records();
                self.items.remove(i);
                self.serials = Ghost(self.serials@.remove(i as int));
                proof {
                    assert(self.records() =~= old_records.remove(i as int));
                    assert forall|k: int| 0 <= k < self.items@.len() implies #[trigger] self.serials@[k]
                        < self.next_serial by {
                        if k >= i {
                            assert(self.serials@[k] == old(self).serials@[k + 1]);
                        }
                    }
                    assert forall|k: int| 0 <= k < self.items@.len() implies #[trigger] self.items@[k].id@
                        == decimal(self.serials@[k]) by {
                        if k >= i {
                            assert(self.items@[k] == old(self).items@[k + 1]);
                            assert(self.serials@[k] == old(self).serials@[k + 1]);
                        }
                    }
                    assert forall|a: int, b: int| 0 <= a < b < self.records().len() implies #[trigger] self.records()[a][0]
                        != #[trigger] self.records()[b][0] by {
                        let oa = if a < i { a } else { a + 1 };
                        let ob = if b < i { b } else { b + 1 };
                        assert(self.records()[a] == old_records[oa]);
                        assert(self.records()[b] == old_records[ob]);
                    }
                }
                Ok("Image removed".to_owned())
            },
        }
    }
}

/// The counts over both collections of the store.
pub fn get_stats(containers: &ContainerStore, images: &ImageStore) -> (r: SystemStats)
    ensures
        r.total_containers == containers.records().len(),
        r.running_containers == running_count(containers.records()),
        r.total_images == images.records().len(),
{
    SystemStats {
        total_containers: containers.len(),
        running_containers: containers.running_count(),
        total_images: images.len(),
    }
}

} // verus!
