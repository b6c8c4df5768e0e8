//! The bridge's resources (devices, lights, rooms, zones, scenes) and the resolution of a
//! room or zone into the lights it holds.
//!
//! Brightness levels read from the bridge are in hundredths of a percent; colour
//! coordinates are in millionths.
use vstd::prelude::*;
use crate::command::{On, XY};

verus! {

#[derive(Debug)]
pub struct ResourceIdentifier {
    pub rid: String,
    pub rtype: String,
}

impl Clone for ResourceIdentifier {
    fn clone(&self) -> (r: Self)
        ensures
            r == *self,
    {
        ResourceIdentifier { rid: self.rid.clone(), rtype: self.rtype.clone() }
    }
}

#[derive(Debug)]
pub struct Device {
    pub id: String,
    pub id_v1: Option<String>,
    pub services: Vec<ResourceIdentifier>,
}

/// The ids of the services of type `light`, in order.
pub open spec fn light_ids(services: Seq<ResourceIdentifier>) -> Seq<Seq<char>>
    decreases services.len(),
{
    if services.len() == 0 {
        seq![]
    } else {
        let rest = light_ids(services.drop_last());
        if services.last().rtype@ == "light"@ {
            rest.push(services.last().rid@)
        } else {
            rest
        }
    }
}

impl Device {
    /// Returns the ids of all services of type light associated with this device.
    pub fn get_lights(&self) -> (r: Vec<String>)
        ensures
            r@.map_values(|s: String| s@) == light_ids(self.services@),
    {
        let light = String::from_str("light");
        let mut r: Vec<String> = Vec::new();
        let mut i: usize = 0;
        while i < self.services.len()
            invariant
                i <= self.services@.len(),
                light@ == "light"@,
                r@.map_values(|s: String| s@) == light_ids(self.services@.subrange(0, i as int)),
            decreases self.services@.len() - i,
        {
            proof {
                assert(self.services@.subrange(0, i + 1).drop_last() =~= self.services@.subrange(
                    0,
                    i as int,
                ));
            }
            let service = &self.services[i];
            if service.rtype == light {
                r.push(service.rid.clone());
                proof {
                    assert(r@.map_values(|s: String| s@) =~= light_ids(
                        self.services@.subrange(0, i as int),
                    ).push(service.rid@));
                }
            }
            i = i + 1;
        }
        proof {
            assert(self.services@.subrange(0, self.services@.len() as int) =~= self.services@);
        }
        r
    }
}

#[derive(Debug)]
pub struct LightMetadata {
    pub name: String,
    pub archetype: String,
    pub fixed_mired: Option<u16>,
    pub function: String,
}

impl Clone for LightMetadata {
    fn clone(&self) -> (r: Self)
        ensures
            r == *self,
    {
        LightMetadata {
            name: self.name.clone(),
            archetype: self.archetype.clone(),
            fixed_mired: self.fixed_mired,
            function: self.function.clone(),
        }
    }
}

/// A brightness level, in hundredths of a percent.
#[derive(Debug, Clone, Copy, PartialEq, Eq, Structural)]
pub struct Dimming {
    pub brightness: u32,
    pub min_dim_level: Option<u32>,
}

#[derive(Debug, Clone, Copy, PartialEq, Eq, Structural)]
pub struct MirekSchema {
    pub mirek_minimum: u16,
    pub mirek_maximum: u16,
}

#[derive(Debug, Clone, Copy, PartialEq, Eq, Structural)]
pub struct ColorTemperature {
    pub mirek: Option<u16>,
    pub mirek_valid: bool,
    pub mirek_schema: MirekSchema,
}

#[derive(Debug, Clone, Copy, PartialEq, Eq, Structural)]
pub struct Gamut {
    pub red: XY,
    pub green: XY,
    pub blue: XY,
}

#[derive(Debug, Clone, Copy, PartialEq, Eq, Structural)]
pub struct Color {
    pub xy: XY,
    pub gamut: Option<Gamut>,
}

#[derive(Debug)]
pub struct Light {
    pub id: String,
    pub id_v1: Option<String>,
    pub metadata: LightMetadata,
    pub service_id: u32,
    pub on: On,
    pub dimming: Option<Dimming>,
    pub color_temperature: Option<ColorTemperature>,
    pub color: Option<Color>,
}

fn clone_opt_string(s: &Option<String>) -> (r: Option<String>)
    ensures
        r == *s,
{
    match s {
        Some(v) => Some(v.clone()),
        None => None,
    }
}

impl Clone for Light {
    fn clone(&self) -> (r: Self)
        ensures
            r == *self,
    {
        Light {
            id: self.id.clone(),
            id_v1: clone_opt_string(&self.id_v1),
            metadata: self.metadata.clone(),
            service_id: self.service_id,
            on: self.on,
            dimming: self.dimming,
            color_temperature: self.color_temperature,
            color: self.color,
        }
    }
}

#[derive(Debug)]
pub struct Metadata {
    pub name: String,
    pub archetype: String,
}

#[derive(Debug)]
pub struct Room {
    pub id: String,
    pub id_v1: Option<String>,
    pub metadata: Metadata,
    pub children: Vec<ResourceIdentifier>,
    pub services: Vec<ResourceIdentifier>,
}

#[derive(Debug)]
pub struct ResolvedRoom {
    pub id: String,
    pub id_v1: Option<String>,
    pub metadata: Metadata,
    pub children: Vec<Light>,
    pub services: Vec<ResourceIdentifier>,
}

#[derive(Debug)]
pub struct Zone {
    pub id: String,
    pub id_v1: Option<String>,
    pub metadata: Metadata,
    pub children: Vec<ResourceIdentifier>,
    pub services: Vec<ResourceIdentifier>,
}

#[derive(Debug)]
pub struct ResolvedZone {
    pub id: String,
    pub id_v1: Option<String>,
    pub metadata: Metadata,
    pub children: Vec<Light>,
    pub services: Vec<ResourceIdentifier>,
}

#[derive(Debug)]
pub struct SceneMetadata {
    pub name: String,
}

#[derive(Debug)]
pub struct Scene {
    pub id: String,
    pub id_v1: Option<String>,
    pub metadata: SceneMetadata,
}

#[derive(Debug)]
pub struct SceneRecall {
    pub action: String,
}

/// The body that recalls a scene.
#[derive(Debug)]
pub struct CommandScene {
    pub recall: SceneRecall,
}

impl CommandScene {
    /// The command that makes a scene the active one.
    pub fn activate() -> (r: CommandScene)
        ensures
            r.recall.action@ == "active"@,
    {
        CommandScene { recall: SceneRecall { action: String::from_str("active") } }
    }
}

/// The device with this id; the last one when several share it.
pub open spec fn device_with_id(devices: Seq<Device>, id: Seq<char>) -> Option<Device>
    decreases devices.len(),
{
    if devices.len() == 0 {
        None
    } else if devices.last().id@ == id {
        Some(devices.last())
    } else {
        device_with_id(devices.drop_last(), id)
    }
}

/// The light with this id; the last one when several share it.
pub open spec fn light_with_id(lights: Seq<Light>, id: Seq<char>) -> Option<Light>
    decreases lights.len(),
{
    if lights.len() == 0 {
        None
    } else if lights.last().id@ == id {
        Some(lights.last())
    } else {
        light_with_id(lights.drop_last(), id)
    }
}

/// The lights that these ids name, in order; an id that names no light is skipped.
pub open spec fn lights_with_ids(ids: Seq<Seq<char>>, lights: Seq<Light>) -> Seq<Light>
    decreases ids.len(),
{
    if ids.len() == 0 {
        seq![]
    } else {
        let rest = lights_with_ids(ids.drop_last(), lights);
        match light_with_id(lights, ids.last()) {
            Some(l) => rest.push(l),
            None => rest,
        }
    }
}

/// The lights of a group's children: each child names a device, whose light services name
/// lights. A child with no device, or a service with no light, adds nothing.
pub open spec fn resolved_lights(
    children: Seq<ResourceIdentifier>,
    devices: Seq<Device>,
    lights: Seq<Light>,
) -> Seq<Light>
    decreases children.len(),
{
    if children.len() == 0 {
        seq![]
    } else {
        resolved_lights(children.drop_last(), devices, lights) + match device_with_id(
            devices,
            children.last().rid@,
        ) {
            Some(d) => lights_with_ids(light_ids(d.services@), lights),
            None => seq![],
        }
    }
}

fn find_device(devices: &Vec<Device>, id: &String) -> (r: Option<usize>)
    ensures
        match r {
            Some(i) => i < devices@.len() && device_with_id(devices@, id@) == Some(devices@[i as int]),
            None => device_with_id(devices@, id@) is None,
        },
{
    let mut k: usize = devices.len();
    proof {
        assert(devices@.subrange(0, k as int) =~= devices@);
    }
    while k > 0
        invariant
            k <= devices@.len(),
            device_with_id(devices@, id@) == device_with_id(devices@.subrange(0, k as int), id@),
        decreases k,
    {
        proof {
            assert(devices@.subrange(0, k as int).drop_last() =~= devices@.subrange(0, k - 1));
        }
        if devices[k - 1].id == *id {
            return Some(k - 1);
        }
        k = k - 1;
    }
    None
}

fn find_light(lights: &Vec<Light>, id: &String) -> (r: Option<usize>)
    ensures
        match r {
            Some(i) => i < lights@.len() && light_with_id(lights@, id@) == Some(lights@[i as int]),
            None => light_with_id(lights@, id@) is None,
        },
{
    let mut k: usize = lights.len();
    proof {
        assert(lights@.subrange(0, k as int) =~= lights@);
    }
    while k > 0
        invariant
            k <= lights@.len(),
            light_with_id(lights@, id@) == light_with_id(lights@.subrange(0, k as int), id@),
        decreases k,
    {
        proof {
            assert(lights@.subrange(0, k as int).drop_last() =~= lights@.subrange(0, k - 1));
        }
        if lights[k - 1].id == *id {
            return Some(k - 1);
        }
        k = k - 1;
    }
    None
}

/// Resolves the children of a room or zone into the lights they hold.
pub fn resolve_children(
    children: &Vec<ResourceIdentifier>,
    devices: &Vec<Device>,
    lights: &Vec<Light>,
) -> (r: Vec<Light>)
    ensures
        r@ == resolved_lights(children@, devices@, lights@),
{
    let mut out: Vec<Light> = Vec::new();
    let mut i: usize = 0;
    while i < children.len()
        invariant
            i <= children@.len(),
            out@ == resolved_lights(children@.subrange(0, i as int), devices@, lights@),
        decreases children@.len() - i,
    {
        proof {
            assert(children@.subrange(0, i + 1).drop_last() =~= children@.subrange(0, i as int));
        }
        let ghost before = out@;
        match find_device(devices, &children[i].rid) {
            Some(d) => {
                let ids = devices[d].get_lights();
                let ghost id_views = ids@.map_values(|s: String| s@);
                let mut j: usize = 0;
                while j < ids.len()
                    invariant
                        j <= ids@.len(),
                        id_views == ids@.map_values(|s: String| s@),
                        out@ == before + lights_with_ids(id_views.subrange(0, j as int), lights@),
                    decreases ids@.len() - j,
                {
                    proof {
                        assert(id_views.subrange(0, j + 1).drop_last() =~= id_views.subrange(
                            0,
                            j as int,
                        ));
                        assert(id_views[j as int] == ids@[j as int]@);
                    }
                    match find_light(lights, &ids[j]) {
                        Some(l) => {
                            out.push(lights[l].clone());
                            proof {
                                assert(out@ =~= before + lights_with_ids(
                                    id_views.subrange(0, j + 1),
                                    lights@,
                                ));
                            }
                        },
                        None => {},
                    }
                    j = j + 1;
                }
                proof {
                    assert(id_views.subrange(0, ids@.len() as int) =~= id_views);
                }
            },
            None => {
                proof {
                    assert(out@ =~= before + Seq::<Light>::empty());
                }
            },
        }
        i = i + 1;
    }
    proof {
        assert(children@.subrange(0, children@.len() as int) =~= children@);
    }
    out
}

/// Resolves each room into the lights it holds, keeping the rooms' order and other fields.
pub fn resolve_rooms(rooms: Vec<Room>, devices: &Vec<Device>, lights: &Vec<Light>) -> (r: Vec<
    ResolvedRoom,
>)
    ensures
        r@.len() == rooms@.len(),
        forall|i: int|
            0 <= i < rooms@.len() ==> {
                &&& (#[trigger] r@[i]).id == rooms@[i].id
                &&& r@[i].id_v1 == rooms@[i].id_v1
                &&& r@[i].metadata == rooms@[i].metadata
                &&& r@[i].services == rooms@[i].services
                &&& r@[i].children@ == resolved_lights(rooms@[i].children@, devices@, lights@)
            },
{
    let ghost orig = rooms@;
    let mut rooms = rooms;
    let mut out: Vec<ResolvedRoom> = Vec::new();
    while rooms.len() > 0
        invariant
            out@.len() + rooms@.len() == orig.len(),
            rooms@ == orig.subrange(out@.len() as int, orig.len() as int),
            forall|i: int|
                0 <= i < out@.len() ==> {
                    &&& (#[trigger] out@[i]).id == orig[i].id
                    &&& out@[i].id_v1 == orig[i].id_v1
                    &&& out@[i].metadata == orig[i].metadata
                    &&& out@[i].services == orig[i].services
                    &&& out@[i].children@ == resolved_lights(orig[i].children@, devices@, lights@)
                },
        decreases rooms@.len(),
    {
        let room = rooms.remove(0);
        let children = resolve_children(&room.children, devices, lights);
        out.push(
            ResolvedRoom {
                id: room.id,
                id_v1: room.id_v1,
                metadata: room.metadata,
                children,
                services: room.services,
            },
        );
    }
    out
}

/// Resolves each zone into the lights it holds, keeping the zones' order and other fields.
pub fn resolve_zones(zones: Vec<Zone>, devices: &Vec<Device>, lights: &Vec<Light>) -> (r: Vec<
    ResolvedZone,
>)
    ensures
        r@.len() == zones@.len(),
        forall|i: int|
            0 <= i < zones@.len() ==> {
                &&& (#[trigger] r@[i]).id == zones@[i].id
                &&& r@[i].id_v1 == zones@[i].id_v1
                &&& r@[i].metadata == zones@[i].metadata
                &&& r@[i].services == zones@[i].services
                &&& r@[i].children@ == resolved_lights(zones@[i].children@, devices@, lights@)
            },
{
    let ghost orig = zones@;
    let mut zones = zones;
    let mut out: Vec<ResolvedZone> = Vec::new();
    while zones.len() > 0
        invariant
            out@.len() + zones@.len() == orig.len(),
            zones@ == orig.subrange(out@.len() as int, orig.len() as int),
            forall|i: int|
                0 <= i < out@.len() ==> {
                    &&& (#[trigger] out@[i]).id == orig[i].id
                    &&& out@[i].id_v1 == orig[i].id_v1
                    &&& out@[i].metadata == orig[i].metadata
                    &&& out@[i].services == orig[i].services
                    &&& out@[i].children@ == resolved_lights(orig[i].children@, devices@, lights@)
                },
        decreases zones@.len(),
    {
        let zone = zones.remove(0);
        let children = resolve_children(&zone.children, devices, lights);
        out.push(
            ResolvedZone {
                id: zone.id,
                id_v1: zone.id_v1,
                metadata: zone.metadata,
                children,
                services: zone.services,
            },
        );
    }
    out
}

/// Resolution drops what it cannot find: a group whose one child names a device with two
/// light services, of which only the first names a known light, resolves to that one light.
pub proof fn lemma_resolution_drops_missing(
    child: ResourceIdentifier,
    devices: Seq<Device>,
    lights: Seq<Light>,
    device: Device,
    found: Light,
)
    requires
        device_with_id(devices, child.rid@) == Some(device),
        light_ids(device.services@).len() == 2,
        light_with_id(lights, light_ids(device.services@)[0]) == Some(found),
        light_with_id(lights, light_ids(device.services@)[1]) is None,
    ensures
        resolved_lights(seq![child], devices, lights) == seq![found],
{
    let ids = light_ids(device.services@);
    let one = ids.drop_last();
    assert(one.drop_last() =~= Seq::<Seq<char>>::empty());
    assert(lights_with_ids(one.drop_last(), lights) == Seq::<Light>::empty());
    assert(one.last() == ids[0]);
    assert(lights_with_ids(one, lights) =~= seq![found]);
    assert(ids.last() == ids[1]);
    assert(lights_with_ids(ids, lights) =~= seq![found]);
    assert(seq![child].drop_last() =~= Seq::<ResourceIdentifier>::empty());
    assert(seq![child].last() == child);
    assert(resolved_lights(seq![child].drop_last(), devices, lights) == Seq::<Light>::empty());
    assert(resolved_lights(seq![child], devices, lights) == Seq::<Light>::empty() + lights_with_ids(
        ids,
        lights,
    ));
    assert(resolved_lights(seq![child], devices, lights) =~= seq![found]);
}

} // verus!
