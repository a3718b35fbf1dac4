//! Where each platform's toolchain resources live.
use crate::paths::{join, join_path};
use crate::platform::{platform_name, Platform};
use vstd::prelude::*;

verus! {

/// A prebuilt file that packaging reads for a platform.
#[derive(Clone, Copy, Debug, PartialEq, Eq, Hash, Structural)]
pub enum Resource {
    ElfBinary,
    DefaultIcon,
    RomFS,
}

/// The directory that holds every synchronised resource.
pub const RESOURCES_DIRECTORY: &'static str = "resources";

/// Path of a platform's resource, empty where the platform has none.
pub open spec fn resource_path(p: Platform, r: Resource) -> Seq<char> {
    match r {
        Resource::ElfBinary => join(join("resources"@, platform_name(p)), "lovepotion.elf"@),
        Resource::RomFS => join(join("resources"@, platform_name(p)), "files.romfs"@),
        Resource::DefaultIcon => Seq::empty(),
    }
}

/// Path of the icon used when a build brings none.
pub open spec fn default_icon_path() -> Seq<char> {
    join("resources"@, "default.png"@)
}

/// The resources that a platform's folder provides, with their paths.
pub fn make_resources(platform: &Platform) -> (r: Vec<(Resource, String)>)
    ensures
        r@.len() == 2,
        r@[0].0 == Resource::ElfBinary,
        r@[0].1@ == resource_path(*platform, Resource::ElfBinary),
        r@[1].0 == Resource::RomFS,
        r@[1].1@ == resource_path(*platform, Resource::RomFS),
{
    let base = join_path(RESOURCES_DIRECTORY, platform.name().as_str());
    let elf = join_path(base.as_str(), "lovepotion.elf");
    let romfs = join_path(base.as_str(), "files.romfs");
    let mut r: Vec<(Resource, String)> = Vec::new();
    r.push((Resource::ElfBinary, elf));
    r.push((Resource::RomFS, romfs));
    r
}

/// The path of `resource` for `platform`, or an empty path where the
/// platform's folder provides no such resource.
pub fn fetch(platform: &Platform, resource: Resource) -> (r: String)
    ensures
        r@ == resource_path(*platform, resource),
{
    let table = make_resources(platform);
    let mut i: usize = 0;
    while i < table.len()
        invariant
            table@.len() == 2,
            table@[0].0 == Resource::ElfBinary,
            table@[0].1@ == resource_path(*platform, Resource::ElfBinary),
            table@[1].0 == Resource::RomFS,
            table@[1].1@ == resource_path(*platform, Resource::RomFS),
            forall|j: int| 0 <= j < i ==> table@[j].0 != resource,
        decreases table.len() - i,
    {
        if table[i].0 == resource {
            return table[i].1.clone();
        }
        i = i + 1;
    }
    assert(resource == Resource::DefaultIcon);
    String::new()
}

/// The path of the shared default icon.
pub fn fetch_icon() -> (r: String)
    ensures
        r@ == default_icon_path(),
{
    join_path(RESOURCES_DIRECTORY, "default.png")
}

} // verus!
