//! Rows of the database and the values they stand for. The lists that a
//! row holds as JSON text are handed in and out beside it.
use crate::container::{
    mounts_view, Container, ContainerState, ContainerView, Mount, PortMapping, RestartPolicy,
};
use crate::image::{
    instructions_view, DockerfileInstruction, Image, ImageConfig, ImageState, ImageView,
};
use crate::jail::{clone_opt, opt_view};
use crate::store;
use crate::text::{concat2, lower};
use vstd::prelude::*;

verus! {

/// The state of a container, as the database has it.
pub open spec fn stored_state(s: ContainerState) -> store::ContainerState {
    match s {
        ContainerState::Created => store::ContainerState::Created,
        ContainerState::Running => store::ContainerState::Running,
        ContainerState::Stopped => store::ContainerState::Stopped,
        ContainerState::Paused => store::ContainerState::Paused,
        ContainerState::Removing => store::ContainerState::Removing,
    }
}

/// The state of a container that a row's state stands for.
pub open spec fn loaded_state(s: store::ContainerState) -> ContainerState {
    match s {
        store::ContainerState::Created => ContainerState::Created,
        store::ContainerState::Running => ContainerState::Running,
        store::ContainerState::Stopped => ContainerState::Stopped,
        store::ContainerState::Paused => ContainerState::Paused,
        store::ContainerState::Removing => ContainerState::Removing,
    }
}

/// The state of an image that a row's state stands for.
pub open spec fn loaded_image_state(s: store::ImageState) -> ImageState {
    match s {
        store::ImageState::Building => ImageState::Building,
        store::ImageState::Available => ImageState::Available,
        store::ImageState::Deleted => ImageState::Deleted,
    }
}

/// The state of a container, as the database has it.
pub fn container_state_to_store(s: ContainerState) -> (r: store::ContainerState)
    ensures
        r == stored_state(s),
{
    match s {
        ContainerState::Created => store::ContainerState::Created,
        ContainerState::Running => store::ContainerState::Running,
        ContainerState::Stopped => store::ContainerState::Stopped,
        ContainerState::Paused => store::ContainerState::Paused,
        ContainerState::Removing => store::ContainerState::Removing,
    }
}

/// The row of an image that has just been added: it is stored as
/// available, whatever state it shows, with its size as a signed number.
pub fn image_row(image: &Image, dockerfile: String, config: String) -> (r: store::Image)
    ensures
        r.id@ == image.id@,
        r.name@ == image.name@,
        opt_view(r.parent_id) == opt_view(image.parent_id),
        r.snapshot@ == image.snapshot@,
        r.dockerfile@ == dockerfile@,
        r.config@ == config@,
        r.size_bytes == image.size_bytes as i64,
        r.state == store::ImageState::Available,
        r.created_at == image.created_at,
{
    store::Image {
        id: image.id.clone(),
        name: image.name.clone(),
        parent_id: clone_opt(&image.parent_id),
        snapshot: image.snapshot.clone(),
        dockerfile,
        config,
        size_bytes: image.size_bytes as i64,
        state: store::ImageState::Available,
        created_at: image.created_at,
    }
}

/// The image that a row stands for, given the instructions and the
/// configuration that the row holds as text.
pub fn load_image_from_store_row(
    row: store::Image,
    dockerfile: Vec<DockerfileInstruction>,
    config: ImageConfig,
) -> (r: Image)
    ensures
        r@ == (ImageView {
            id: row.id@,
            name: row.name@,
            parent_id: opt_view(row.parent_id),
            snapshot: row.snapshot@,
            dockerfile: instructions_view(dockerfile@),
            config: config@,
            size_bytes: row.size_bytes as u64,
            state: loaded_image_state(row.state),
            created_at: row.created_at,
        }),
{
    let state = match row.state {
        store::ImageState::Building => ImageState::Building,
        store::ImageState::Available => ImageState::Available,
        store::ImageState::Deleted => ImageState::Deleted,
    };
    Image {
        id: row.id,
        name: row.name,
        parent_id: row.parent_id,
        snapshot: row.snapshot,
        dockerfile,
        config,
        size_bytes: row.size_bytes as u64,
        state,
        created_at: row.created_at,
    }
}

/// The row of a container, given its mounts and its port mappings as
/// text.
pub fn container_row(container: &Container, mounts: String, port_mappings: String) -> (r:
    store::Container)
    ensures
        r.id@ == container.id@,
        opt_view(r.name) == opt_view(container.name),
        r.image_id@ == container.image_id@,
        r.jail_name@ == container.jail_name@,
        r.dataset@ == container.dataset@,
        r.state == stored_state(container.state),
        r.restart_policy@ == container.restart_policy.name(),
        r.mounts@ == mounts@,
        r.port_mappings@ == port_mappings@,
        opt_view(r.ip) == opt_view(container.ip),
        r.created_at == container.created_at,
        r.started_at == container.started_at,
{
    store::Container {
        id: container.id.clone(),
        name: clone_opt(&container.name),
        image_id: container.image_id.clone(),
        jail_name: container.jail_name.clone(),
        dataset: container.dataset.clone(),
        state: container_state_to_store(container.state),
        restart_policy: container.restart_policy.to_string(),
        mounts,
        port_mappings,
        ip: clone_opt(&container.ip),
        created_at: container.created_at,
        started_at: container.started_at,
    }
}

/// The container that a row stands for, given the mounts and the port
/// mappings that the row holds as text. A row whose restart policy has no
/// meaning stands for none.
pub fn load_container_from_store_row(
    row: store::Container,
    mounts: Vec<Mount>,
    port_mappings: Vec<PortMapping>,
) -> (r: Result<Container, String>)
    ensures
        match RestartPolicy::named(row.restart_policy@) {
            Some(p) => r matches Ok(c) && c@ == (ContainerView {
                id: row.id@,
                name: opt_view(row.name),
                image_id: row.image_id@,
                jail_name: row.jail_name@,
                dataset: row.dataset@,
                state: loaded_state(row.state),
                restart_policy: p,
                mounts: mounts_view(mounts@),
                port_mappings: port_mappings@,
                ip: opt_view(row.ip),
                created_at: row.created_at,
                started_at: row.started_at,
            }),
            None => r matches Err(m) && m@ == "Failed to parse restart_policy: "@
                + "Invalid restart policy: "@ + row.restart_policy@,
        },
{
    let restart_policy = match RestartPolicy::parse(row.restart_policy.as_str()) {
        Ok(p) => p,
        Err(e) => {
            return Err(concat2("Failed to parse restart_policy: ", e.as_str()));
        },
    };
    let state = match row.state {
        store::ContainerState::Created => ContainerState::Created,
        store::ContainerState::Running => ContainerState::Running,
        store::ContainerState::Stopped => ContainerState::Stopped,
        store::ContainerState::Paused => ContainerState::Paused,
        store::ContainerState::Removing => ContainerState::Removing,
    };
    Ok(
        Container::new_with_existing_data(
            row.id,
            row.name,
            row.image_id,
            row.jail_name,
            row.dataset,
            state,
            restart_policy,
            mounts,
            port_mappings,
            row.ip,
            row.created_at,
            row.started_at,
        ),
    )
}

/// A container that is written to a row and read back is the container
/// it was.
pub proof fn lemma_container_row_round_trip(c: ContainerState, p: RestartPolicy)
    ensures
        loaded_state(stored_state(c)) == c,
        RestartPolicy::named(p.name()) == Some(p),
{
    reveal_strlit("no");
    reveal_strlit("on-restart");
    reveal_strlit("on-failure");
    reveal_strlit("always");
    assert(lower("no"@) =~= "no"@);
    assert(lower("on-restart"@) =~= "on-restart"@);
    assert(lower("on-failure"@) =~= "on-failure"@);
    assert(lower("always"@) =~= "always"@);
    assert("on-restart"@[3] == 'r');
    assert("on-failure"@[3] == 'f');
}

} // verus!
