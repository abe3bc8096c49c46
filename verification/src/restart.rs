//! Starting again: the manager takes in what the database holds, each jail
//! held against what the kernel shows of it.

use crate::container::{Container, ContainerView};
use crate::image::{Image, ImageView};
use crate::jail::{
    is_row_of, lemma_state_name_round_trip, name_problem, JailState, JailView,
};
use crate::manager::{
    containers_have_jails, containers_view, distinct_containers, distinct_image_names,
    distinct_images, distinct_jails, distinct_names, has_container, has_image, has_jail,
    image_name_taken, images_view, jails_wf, name_taken, owns_jail, stored_jail, JailManager,
};
use crate::store::JailRow;
use vstd::prelude::*;

verus! {

/// A row of the jails table, and the JID under which the kernel knows the
/// row's name, if it knows the name.
#[derive(Debug, PartialEq, Eq)]
pub struct SeenJail {
    pub row: JailRow,
    pub live: Option<i32>,
}

impl SeenJail {
    /// The JID that the kernel gave, as a number.
    pub open spec fn jid(self) -> Option<int> {
        match self.live {
            Some(jid) => Some(jid as int),
            None => None,
        }
    }

    /// Whether the kernel knows the jail.
    pub open spec fn is_live(self) -> bool {
        self.live matches Some(jid) && jid >= 1
    }
}

/// Whether a row is taken in by a manager that holds the jails `before`:
/// its state can be read and its name is free.
pub open spec fn jail_taken_in(before: Seq<JailView>, row: JailRow) -> bool {
    JailState::named(row.state@) is Some && !has_jail(before, row.name@)
}

/// The jails of a manager that held `start` and was handed the first `n`
/// of the rows, one after the other.
pub open spec fn jails_loaded(start: Seq<JailView>, rows: Seq<SeenJail>, n: int) -> Seq<JailView>
    decreases n,
{
    if n <= 0 {
        start
    } else {
        let before = jails_loaded(start, rows, n - 1);
        if jail_taken_in(before, rows[n - 1].row) {
            before.push(stored_jail(rows[n - 1].row).reconciled(rows[n - 1].jid()))
        } else {
            before
        }
    }
}

/// Whether an image is taken in by a manager that holds the images
/// `before`: its identifier and its name are free.
pub open spec fn image_taken_in(before: Seq<ImageView>, image: ImageView) -> bool {
    !has_image(before, image.id) && !image_name_taken(before, image.name, image.id)
}

/// The images of a manager that held `start` and was handed the first `n`
/// of the images, one after the other.
pub open spec fn images_loaded(start: Seq<ImageView>, images: Seq<ImageView>, n: int) -> Seq<
    ImageView,
>
    decreases n,
{
    if n <= 0 {
        start
    } else {
        let before = images_loaded(start, images, n - 1);
        if image_taken_in(before, images[n - 1]) {
            before.push(images[n - 1])
        } else {
            before
        }
    }
}

/// Whether a container is taken in by a manager that holds the containers
/// `cs` and the jails `js`: its identifier, its name and its jail are free
/// of other containers, and its jail is there or can be named.
pub open spec fn container_taken_in(
    cs: Seq<ContainerView>,
    js: Seq<JailView>,
    c: ContainerView,
) -> bool {
    &&& !has_container(cs, c.id)
    &&& !owns_jail(cs, c.jail_name)
    &&& !name_taken(cs, c.name)
    &&& (has_jail(js, c.jail_name) || name_problem(c.jail_name) is None)
}

/// The containers and the jails of a manager that held `cs` and `js` and
/// was handed the first `n` of the containers, one after the other. A
/// container whose jail is missing brings a jail that was just configured.
pub open spec fn containers_loaded(
    cs: Seq<ContainerView>,
    js: Seq<JailView>,
    containers: Seq<ContainerView>,
    n: int,
) -> (Seq<ContainerView>, Seq<JailView>)
    decreases n,
{
    if n <= 0 {
        (cs, js)
    } else {
        let before = containers_loaded(cs, js, containers, n - 1);
        let c = containers[n - 1];
        if container_taken_in(before.0, before.1, c) {
            (
                before.0.push(c),
                if has_jail(before.1, c.jail_name) {
                    before.1
                } else {
                    before.1.push(JailView::fresh(c.jail_name))
                },
            )
        } else {
            before
        }
    }
}

impl JailManager {
    /// Takes in the jails that the database holds, in the order of the
    /// rows, each in the state that the kernel shows. The result says of
    /// each row whether it was taken in.
    pub fn load_jails(&mut self, rows: Vec<SeenJail>) -> (r: Vec<bool>)
        requires
            old(self).wf(),
        ensures
            final(self).wf(),
            final(self).images() == old(self).images(),
            final(self).containers() == old(self).containers(),
            final(self).started() == old(self).started(),
            final(self).bootstraps() == old(self).bootstraps(),
            final(self).builds() == old(self).builds(),
            final(self).jails() == jails_loaded(old(self).jails(), rows@, rows@.len() as int),
            r@.len() == rows@.len(),
            forall|i: int|
                0 <= i < rows@.len() ==> #[trigger] r@[i] == jail_taken_in(
                    jails_loaded(old(self).jails(), rows@, i),
                    rows@[i].row,
                ),
    {
        let mut taken: Vec<bool> = Vec::new();
        let ghost start = self.jails();
        let ghost all = rows@;
        for seen in it: rows
            invariant
                self.wf(),
                self.images() == old(self).images(),
                self.containers() == old(self).containers(),
                self.started() == old(self).started(),
                self.bootstraps() == old(self).bootstraps(),
                self.builds() == old(self).builds(),
                start == old(self).jails(),
                it.seq() == all,
                taken@.len() == it.index(),
                self.jails() == jails_loaded(start, all, it.index() as int),
                forall|i: int|
                    0 <= i < it.index() ==> #[trigger] taken@[i] == jail_taken_in(
                        jails_loaded(start, all, i),
                        all[i].row,
                    ),
        {
            let ok = self.load_jail(seen.row, seen.live);
            taken.push(ok);
        }
        taken
    }

    /// Takes in the images that the database holds, in their order. The
    /// result says of each whether it was taken in.
    pub fn load_images(&mut self, images: Vec<Image>) -> (r: Vec<bool>)
        requires
            old(self).wf(),
        ensures
            final(self).wf(),
            final(self).jails() == old(self).jails(),
            final(self).containers() == old(self).containers(),
            final(self).started() == old(self).started(),
            final(self).bootstraps() == old(self).bootstraps(),
            final(self).builds() == old(self).builds(),
            final(self).images() == images_loaded(
                old(self).images(),
                images_view(images@),
                images@.len() as int,
            ),
            r@.len() == images@.len(),
            forall|i: int|
                0 <= i < images@.len() ==> #[trigger] r@[i] == image_taken_in(
                    images_loaded(old(self).images(), images_view(images@), i),
                    images@[i]@,
                ),
    {
        let mut taken: Vec<bool> = Vec::new();
        let ghost start = self.images();
        let ghost all = images_view(images@);
        for image in it: images
            invariant
                self.wf(),
                self.jails() == old(self).jails(),
                self.containers() == old(self).containers(),
                self.started() == old(self).started(),
                self.bootstraps() == old(self).bootstraps(),
                self.builds() == old(self).builds(),
                start == old(self).images(),
                all == images_view(it.seq()),
                taken@.len() == it.index(),
                self.images() == images_loaded(start, all, it.index() as int),
                forall|i: int|
                    0 <= i < it.index() ==> #[trigger] taken@[i] == image_taken_in(
                        images_loaded(start, all, i),
                        all[i],
                    ),
        {
            let ok = self.load_image(image);
            taken.push(ok);
        }
        taken
    }

    /// Takes in the containers that the database holds, in their order,
    /// after the jails. The result says of each whether it was taken in.
    pub fn load_containers(&mut self, containers: Vec<Container>) -> (r: Vec<bool>)
        requires
            old(self).wf(),
        ensures
            final(self).wf(),
            final(self).images() == old(self).images(),
            final(self).started() == old(self).started(),
            final(self).bootstraps() == old(self).bootstraps(),
            final(self).builds() == old(self).builds(),
            (final(self).containers(), final(self).jails()) == containers_loaded(
                old(self).containers(),
                old(self).jails(),
                containers_view(containers@),
                containers@.len() as int,
            ),
            r@.len() == containers@.len(),
            forall|i: int|
                0 <= i < containers@.len() ==> {
                    let before = containers_loaded(
                        old(self).containers(),
                        old(self).jails(),
                        containers_view(containers@),
                        i,
                    );
                    #[trigger] r@[i] == container_taken_in(before.0, before.1, containers@[i]@)
                },
    {
        let mut taken: Vec<bool> = Vec::new();
        let ghost held = self.containers();
        let ghost jails = self.jails();
        let ghost all = containers_view(containers@);
        for container in it: containers
            invariant
                self.wf(),
                self.images() == old(self).images(),
                self.started() == old(self).started(),
                self.bootstraps() == old(self).bootstraps(),
                self.builds() == old(self).builds(),
                held == old(self).containers(),
                jails == old(self).jails(),
                all == containers_view(it.seq()),
                taken@.len() == it.index(),
                (self.containers(), self.jails()) == containers_loaded(
                    held,
                    jails,
                    all,
                    it.index() as int,
                ),
                forall|i: int|
                    0 <= i < it.index() ==> {
                        let before = containers_loaded(held, jails, all, i);
                        #[trigger] taken@[i] == container_taken_in(before.0, before.1, all[i])
                    },
        {
            let ok = self.load_container(container);
            taken.push(ok);
        }
        taken
    }
}

/// A jail after a restart: what its row kept of it, held against what
/// the kernel shows. The jail end of an epair is not kept.
pub open spec fn restarted(j: JailView, live: Option<int>) -> JailView {
    (JailView { vnet_interface: None, ..j }).reconciled(live)
}

/// Whether the rows are the rows of the jails, one for one and in order.
pub open spec fn rows_of(rows: Seq<SeenJail>, held: Seq<JailView>) -> bool {
    &&& rows.len() == held.len()
    &&& forall|i: int| 0 <= i < held.len() ==> is_row_of((#[trigger] rows[i]).row, held[i])
}

proof fn lemma_row_is_read(row: JailRow, j: JailView)
    requires
        is_row_of(row, j),
        j.wf(),
    ensures
        JailState::named(row.state@) == Some(j.state),
        stored_jail(row) == (JailView { vnet_interface: None, ..j }),
{
    lemma_state_name_round_trip(j.state);
}

proof fn lemma_jails_loaded(held: Seq<JailView>, rows: Seq<SeenJail>, n: int)
    requires
        distinct_jails(held),
        jails_wf(held),
        rows_of(rows, held),
        0 <= n <= held.len(),
    ensures
        jails_loaded(Seq::empty(), rows, n).len() == n,
        forall|i: int|
            0 <= i < n ==> (#[trigger] jails_loaded(Seq::empty(), rows, n)[i]) == restarted(
                held[i],
                rows[i].jid(),
            ),
    decreases n,
{
    if n > 0 {
        lemma_jails_loaded(held, rows, n - 1);
        let before = jails_loaded(Seq::empty(), rows, n - 1);
        assert(is_row_of(rows[n - 1].row, held[n - 1]));
        assert(held[n - 1].wf());
        lemma_row_is_read(rows[n - 1].row, held[n - 1]);
        if has_jail(before, rows[n - 1].row.name@) {
            let i = choose|i: int|
                0 <= i < before.len() && (#[trigger] before[i]).name == rows[n - 1].row.name@;
            assert(before[i] == restarted(held[i], rows[i].jid()));
            assert(held[i].name != held[n - 1].name);
        }
    }
}

/// Starting again keeps the jails and shows them as the kernel does. When
/// a manager that holds nothing is handed the rows of a set of jails, it
/// holds a jail for each of them afterwards, in their order, with the
/// name, the path and the address that the jail had; and each jail is
/// running exactly if the kernel knows its name, under the JID that the
/// kernel gave. A jail that the kernel does not know is stopped if it was
/// running, and in its old state otherwise.
pub proof fn lemma_restart_keeps_jails(held: Seq<JailView>, rows: Seq<SeenJail>)
    requires
        distinct_jails(held),
        jails_wf(held),
        rows_of(rows, held),
    ensures
        ({
            let js = jails_loaded(Seq::empty(), rows, rows.len() as int);
            &&& js.len() == held.len()
            &&& distinct_jails(js)
            &&& jails_wf(js)
            &&& forall|i: int|
                0 <= i < held.len() ==> {
                    &&& (#[trigger] js[i]) == restarted(held[i], rows[i].jid())
                    &&& js[i].name == held[i].name
                    &&& js[i].path == held[i].path
                    &&& js[i].ip == held[i].ip
                    &&& (js[i].state == JailState::Running <==> rows[i].is_live())
                    &&& rows[i].is_live() ==> js[i].jid == rows[i].live->0
                    &&& !rows[i].is_live() ==> js[i].jid == -1 && js[i].state == if held[i].state
                        == JailState::Running {
                        JailState::Stopped
                    } else {
                        held[i].state
                    }
                }
        }),
{
    lemma_jails_loaded(held, rows, held.len() as int);
    let js = jails_loaded(Seq::empty(), rows, rows.len() as int);
    assert forall|i: int, j: int| 0 <= i < j < js.len() implies (#[trigger] js[i]).name != (
    #[trigger] js[j]).name by {
        assert(held[i].name != held[j].name);
    }
    assert forall|i: int| 0 <= i < js.len() implies (#[trigger] js[i]).wf() by {
        assert(held[i].wf());
    }
}

proof fn lemma_images_loaded(held: Seq<ImageView>, n: int)
    requires
        distinct_images(held),
        distinct_image_names(held),
        0 <= n <= held.len(),
    ensures
        images_loaded(Seq::empty(), held, n) == held.take(n),
    decreases n,
{
    if n > 0 {
        lemma_images_loaded(held, n - 1);
        let before = held.take(n - 1);
        if has_image(before, held[n - 1].id) {
            let i = choose|i: int| 0 <= i < before.len() && (#[trigger] before[i]).id == held[n - 1].id;
            assert(held[i].id != held[n - 1].id);
        }
        if image_name_taken(before, held[n - 1].name, held[n - 1].id) {
            let i = choose|i: int|
                0 <= i < before.len() && (#[trigger] before[i]).name == held[n - 1].name;
            assert(held[i].name != held[n - 1].name);
        }
        assert(before.push(held[n - 1]) =~= held.take(n));
    } else {
        assert(held.take(0) =~= Seq::<ImageView>::empty());
    }
}

/// Starting again keeps the images: a manager that holds nothing and is
/// handed the images that a manager held holds the same images
/// afterwards, in the same order.
pub proof fn lemma_restart_keeps_images(held: Seq<ImageView>)
    requires
        distinct_images(held),
        distinct_image_names(held),
    ensures
        images_loaded(Seq::empty(), held, held.len() as int) == held,
{
    lemma_images_loaded(held, held.len() as int);
    assert(held.take(held.len() as int) =~= held);
}

proof fn lemma_containers_loaded(held: Seq<ContainerView>, js: Seq<JailView>, n: int)
    requires
        distinct_containers(held),
        distinct_names(held),
        containers_have_jails(held, js),
        0 <= n <= held.len(),
    ensures
        containers_loaded(Seq::empty(), js, held, n) == (held.take(n), js),
    decreases n,
{
    if n > 0 {
        lemma_containers_loaded(held, js, n - 1);
        let before = held.take(n - 1);
        let c = held[n - 1];
        if has_container(before, c.id) {
            let i = choose|i: int| 0 <= i < before.len() && (#[trigger] before[i]).id == c.id;
            assert(held[i].id != held[n - 1].id);
        }
        if owns_jail(before, c.jail_name) {
            let i = choose|i: int|
                0 <= i < before.len() && (#[trigger] before[i]).jail_name == c.jail_name;
            assert(held[i].jail_name != held[n - 1].jail_name);
        }
        if name_taken(before, c.name) {
            let i = choose|i: int| 0 <= i < before.len() && (#[trigger] before[i]).name == c.name;
            assert(held[i].name is Some);
            assert(held[i].name != held[n - 1].name);
        }
        assert(has_jail(js, held[n - 1].jail_name));
        assert(before.push(c) =~= held.take(n));
    } else {
        assert(held.take(0) =~= Seq::<ContainerView>::empty());
    }
}

/// Starting again keeps the containers: a manager that holds the jails of
/// a set of containers, and no container, and is handed the containers,
/// holds the same containers afterwards, in the same order, and the same
/// jails.
pub proof fn lemma_restart_keeps_containers(held: Seq<ContainerView>, js: Seq<JailView>)
    requires
        distinct_containers(held),
        distinct_names(held),
        containers_have_jails(held, js),
    ensures
        containers_loaded(Seq::empty(), js, held, held.len() as int) == (held, js),
{
    lemma_containers_loaded(held, js, held.len() as int);
    assert(held.take(held.len() as int) =~= held);
}

/// Starting again restores the manager. When the rows of the jails of a
/// manager, its images and its containers are handed to a manager that
/// holds nothing, jails first and containers last, the new manager holds
/// the same images and the same containers, and a jail for each jail of
/// the old one, no more, in the state that the kernel shows.
pub proof fn lemma_restart_restores(m: &JailManager, rows: Seq<SeenJail>)
    requires
        m.wf(),
        rows_of(rows, m.jails()),
    ensures
        ({
            let js = jails_loaded(Seq::empty(), rows, rows.len() as int);
            &&& js.len() == m.jails().len()
            &&& forall|i: int|
                0 <= i < js.len() ==> (#[trigger] js[i]) == restarted(m.jails()[i], rows[i].jid())
            &&& images_loaded(Seq::empty(), m.images(), m.images().len() as int) == m.images()
            &&& containers_loaded(Seq::empty(), js, m.containers(), m.containers().len() as int)
                == (m.containers(), js)
        }),
{
    lemma_restart_keeps_jails(m.jails(), rows);
    lemma_restart_keeps_images(m.images());
    let js = jails_loaded(Seq::empty(), rows, rows.len() as int);
    let cs = m.containers();
    assert forall|k: int| 0 <= k < cs.len() implies has_jail(js, (#[trigger] cs[k]).jail_name) by {
        assert(has_jail(m.jails(), cs[k].jail_name));
        let i = choose|i: int|
            0 <= i < m.jails().len() && (#[trigger] m.jails()[i]).name == cs[k].jail_name;
        assert(js[i].name == cs[k].jail_name);
    }
    lemma_restart_keeps_containers(cs, js);
}

} // verus!
