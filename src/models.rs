//! The records that the orchestrator hands to its callers.
use vstd::prelude::*;

verus! {

/// A container as the runtime or the state store reports it.
#[derive(Debug)]
pub struct Container {
    pub id: String,
    pub name: String,
    pub image: String,
    pub status: String,
}

/// An image as the runtime or the state store reports it.
#[derive(Debug)]
pub struct Image {
    pub id: String,
    pub name: String,
    pub tag: String,
    pub size: String,
}

/// Counts over containers and images.
#[derive(Debug)]
pub struct SystemStats {
    pub total_containers: usize,
    pub running_containers: usize,
    pub total_images: usize,
}

/// A point-in-time resource reading of one running container.
#[derive(Debug)]
pub struct ContainerStats {
    pub name: String,
    pub cpu: String,
    pub memory: String,
    pub memory_percent: String,
}

impl Container {
    /// The four fields in listing order: identifier, name, image, status.
    pub open spec fn field_views(&self) -> Seq<Seq<char>> {
        seq![self.id@, self.name@, self.image@, self.status@]
    }

    pub fn copy(&self) -> (r: Container)
        ensures
            r.field_views() == self.field_views(),
    {
        Container {
            id: self.id.clone(),
            name: self.name.clone(),
            image: self.image.clone(),
            status: self.status.clone(),
        }
    }
}

impl Image {
    /// The four fields in listing order: identifier, name, tag, size.
    pub open spec fn field_views(&self) -> Seq<Seq<char>> {
        seq![self.id@, self.name@, self.tag@, self.size@]
    }

    pub fn copy(&self) -> (r: Image)
        ensures
            r.field_views() == self.field_views(),
    {
        Image {
            id: self.id.clone(),
            name: self.name.clone(),
            tag: self.tag.clone(),
            size: self.size.clone(),
        }
    }
}

impl ContainerStats {
    /// The four readings: name, cpu, memory, memory percentage.
    pub open spec fn field_views(&self) -> Seq<Seq<char>> {
        seq![self.name@, self.cpu@, self.memory@, self.memory_percent@]
    }
}

} // verus!
