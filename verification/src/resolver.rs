//! From the name that a user gives to the devices that it stands for.

use crate::command::DeviceType;
use crate::registry::{Device, Group, Tuya};
use crate::text::{name_eq, same_name};
use vstd::prelude::*;
use vstd::string::StringExecFns;

verus! {

/// Why a name stands for no list of devices that can be driven together.
#[derive(Clone, Debug, PartialEq, Eq)]
pub enum ResolveError {
    /// No device answers to this name.
    DeviceNotFound(String),
    /// The devices of the group of this name are not all of one family.
    MixedFamilies(String),
}

/// What a `ResolveError` stands for.
pub enum ResolveErrorView {
    DeviceNotFound(Seq<char>),
    MixedFamilies(Seq<char>),
}

impl View for ResolveError {
    type V = ResolveErrorView;

    open spec fn view(&self) -> ResolveErrorView {
        match self {
            ResolveError::DeviceNotFound(n) => ResolveErrorView::DeviceNotFound(n@),
            ResolveError::MixedFamilies(n) => ResolveErrorView::MixedFamilies(n@),
        }
    }
}

impl ResolveErrorView {
    /// The line that tells the user of the error.
    pub open spec fn text(self) -> Seq<char> {
        match self {
            ResolveErrorView::DeviceNotFound(name) => "`"@ + name + "` device not found"@,
            ResolveErrorView::MixedFamilies(name) =>
                "All devices must be of the same type in group `"@ + name + "`"@,
        }
    }
}

impl ResolveError {
    /// The line that tells the user of the error.
    pub fn message(&self) -> (line: String)
        ensures
            line@ == self@.text(),
    {
        match self {
            ResolveError::DeviceNotFound(name) => {
                let mut line = String::from_str("`");
                line.append(name.as_str());
                line.append("` device not found");
                line
            },
            ResolveError::MixedFamilies(name) => {
                let mut line = String::from_str("All devices must be of the same type in group `");
                line.append(name.as_str());
                line.append("`");
                line
            },
        }
    }
}

/// The devices that a name stands for, in the order in which they are to be
/// driven, and the pacing to drive them with.
#[derive(Clone, Debug, PartialEq, Eq)]
pub struct Resolution<'a> {
    pub devices: Vec<&'a Device>,
    /// Milliseconds to wait after each batch.
    pub delay: u64,
    /// Devices per batch.
    pub batch: u64,
}

/// What a `Resolution` stands for.
pub struct ResolutionView {
    pub devices: Seq<Device>,
    pub delay: u64,
    pub batch: u64,
}

/// The devices behind a list of references.
pub open spec fn referents(devices: Seq<&Device>) -> Seq<Device> {
    Seq::new(devices.len(), |i: int| *devices[i])
}

impl<'a> View for Resolution<'a> {
    type V = ResolutionView;

    open spec fn view(&self) -> ResolutionView {
        ResolutionView {
            devices: referents(self.devices@),
            delay: self.delay,
            batch: self.batch,
        }
    }
}

/// The first group whose name is `name`, whatever the case of either.
pub open spec fn first_group(groups: Seq<Group>, name: Seq<char>) -> Option<Group>
    decreases groups.len(),
{
    if groups.len() == 0 {
        None
    } else if same_name(groups[0].group_name@, name) {
        Some(groups[0])
    } else {
        first_group(groups.drop_first(), name)
    }
}

/// Whether a device answers to `name`: by its name or by its short name,
/// whatever the case of either.
pub open spec fn answers_to(device: Device, name: Seq<char>) -> bool {
    same_name(device.name@, name) || match device.sname {
        Some(short) => same_name(short@, name),
        None => false,
    }
}

/// The first device that answers to `name`.
pub open spec fn first_device(devices: Seq<Device>, name: Seq<char>) -> Option<Device>
    decreases devices.len(),
{
    if devices.len() == 0 {
        None
    } else if answers_to(devices[0], name) {
        Some(devices[0])
    } else {
        first_device(devices.drop_first(), name)
    }
}

/// The device names that `name` stands for: the members of the group of
/// that name, in the order in which the group declares them, or the name
/// itself where no group has it.
pub open spec fn targets(registry: Tuya, name: Seq<char>) -> Seq<Seq<char>> {
    match first_group(registry.groups@, name) {
        Some(group) => group.devices.deep_view(),
        None => seq![name],
    }
}

/// The pacing that `name` asks for, as wait and batch size: that of the
/// group of that name, or no wait and batches of one.
pub open spec fn pacing(registry: Tuya, name: Seq<char>) -> (u64, u64) {
    match first_group(registry.groups@, name) {
        Some(group) => (group.delay_spec(), group.batch_spec()),
        None => (0, 1),
    }
}

/// The devices that answer to `names`, one for each name and in the order
/// of the names, or the first of the names to which no device answers.
pub open spec fn lookup_all(devices: Seq<Device>, names: Seq<Seq<char>>) -> Result<
    Seq<Device>,
    Seq<char>,
>
    decreases names.len(),
{
    if names.len() == 0 {
        Ok(Seq::empty())
    } else {
        match lookup_all(devices, names.drop_last()) {
            Err(missing) => Err(missing),
            Ok(found) => match first_device(devices, names.last()) {
                None => Err(names.last()),
                Some(device) => Ok(found.push(device)),
            },
        }
    }
}

/// Whether the devices are all of one family. A device whose product type
/// names no family is of one family only with others of that kind.
pub open spec fn homogeneous(devices: Seq<Device>) -> bool {
    forall|i: int| 0 <= i < devices.len() ==> (#[trigger] devices[i]).family() == devices[0].family()
}

/// What `name` resolves to in `registry`.
pub open spec fn resolve_spec(registry: Tuya, name: Seq<char>) -> Result<
    ResolutionView,
    ResolveErrorView,
> {
    match lookup_all(registry.devices@, targets(registry, name)) {
        Err(missing) => Err(ResolveErrorView::DeviceNotFound(missing)),
        Ok(devices) => if devices.len() > 1 && !homogeneous(devices) {
            Err(ResolveErrorView::MixedFamilies(name))
        } else {
            Ok(
                ResolutionView {
                    devices,
                    delay: pacing(registry, name).0,
                    batch: pacing(registry, name).1,
                },
            )
        },
    }
}

/// Finds the first group whose name is `name`, whatever the case.
pub fn find_group<'a>(groups: &'a Vec<Group>, name: &str) -> (r: Option<&'a Group>)
    ensures
        match first_group(groups@, name@) {
            Some(group) => r matches Some(found) && *found == group,
            None => r is None,
        },
{
    let mut i: usize = 0;
    assert(groups@.skip(0) == groups@);
    while i < groups.len()
        invariant
            i <= groups.len(),
            first_group(groups@, name@) == first_group(groups@.skip(i as int), name@),
        decreases groups.len() - i,
    {
        assert(groups@.skip(i as int)[0] == groups@[i as int]);
        if name_eq(groups[i].group_name.as_str(), name) {
            return Some(&groups[i]);
        }
        assert(groups@.skip(i as int).drop_first() == groups@.skip(i + 1));
        i += 1;
    }
    None
}

/// Finds the first device that answers to `name`, by its name or its short
/// name, whatever the case.
pub fn find_device<'a>(devices: &'a Vec<Device>, name: &str) -> (r: Option<&'a Device>)
    ensures
        match first_device(devices@, name@) {
            Some(device) => r matches Some(found) && *found == device,
            None => r is None,
        },
{
    let mut i: usize = 0;
    assert(devices@.skip(0) == devices@);
    while i < devices.len()
        invariant
            i <= devices.len(),
            first_device(devices@, name@) == first_device(devices@.skip(i as int), name@),
        decreases devices.len() - i,
    {
        assert(devices@.skip(i as int)[0] == devices@[i as int]);
        let device = &devices[i];
        let by_short = match &device.sname {
            Some(short) => name_eq(short.as_str(), name),
            None => false,
        };
        if name_eq(device.name.as_str(), name) || by_short {
            return Some(device);
        }
        assert(devices@.skip(i as int).drop_first() == devices@.skip(i + 1));
        i += 1;
    }
    None
}

/// The device names that `name` stands for: the members of the first group
/// of that name, in the order in which the group declares them; where no
/// group has the name, the name alone.
pub fn target_names(registry: &Tuya, name: &str) -> (names: Vec<String>)
    ensures
        names.deep_view() == targets(*registry, name@),
{
    let mut names: Vec<String> = Vec::new();
    match find_group(&registry.groups, name) {
        Some(group) => {
            let mut i: usize = 0;
            while i < group.devices.len()
                invariant
                    i <= group.devices.len(),
                    names.deep_view() == group.devices.deep_view().take(i as int),
                decreases group.devices.len() - i,
            {
                let ghost copied = names.deep_view();
                names.push(group.devices[i].clone());
                assert(names.deep_view() == copied.push(group.devices[i as int]@));
                assert(group.devices.deep_view().take(i + 1) == copied.push(
                    group.devices[i as int]@,
                ));
                i += 1;
            }
            assert(group.devices.deep_view().take(i as int) == group.devices.deep_view());
        },
        None => {
            names.push(String::from_str(name));
            assert(names.deep_view() == seq![name@]);
        },
    }
    names
}

/// Whether two families, known or not, are the same.
fn same_family(a: Option<DeviceType>, b: Option<DeviceType>) -> (r: bool)
    ensures
        r == (a == b),
{
    match (a, b) {
        (Some(x), Some(y)) => x == y,
        (None, None) => true,
        _ => false,
    }
}

/// Whether the devices are all of one family.
pub fn all_one_family(devices: &Vec<&Device>) -> (r: bool)
    ensures
        r == homogeneous(referents(devices@)),
{
    if devices.len() == 0 {
        return true;
    }
    let first = DeviceType::from_product(devices[0].product_name.as_str());
    let mut i: usize = 1;
    while i < devices.len()
        invariant
            1 <= i <= devices.len(),
            first == referents(devices@)[0].family(),
            forall|j: int| 0 <= j < i ==> (#[trigger] referents(devices@)[j]).family() == first,
        decreases devices.len() - i,
    {
        let family = DeviceType::from_product(devices[i].product_name.as_str());
        if !same_family(family, first) {
            assert(referents(devices@)[i as int].family() != first);
            return false;
        }
        i += 1;
    }
    true
}

/// Resolves the name that a user gave.
///
/// The name of a group stands for the members of the first group of that
/// name, in the group's order, and brings the group's pacing; any other
/// name stands for itself, without pacing. Each of these names must be
/// the name or the short name of a device, whatever the case: the first
/// that is not is reported. Where more than one device is found, all must
/// be of one family.
pub fn resolve<'a>(registry: &'a Tuya, name: &str) -> (r: Result<Resolution<'a>, ResolveError>)
    ensures
        match resolve_spec(*registry, name@) {
            Ok(resolution) => r matches Ok(found) && found@ == resolution,
            Err(e) => r matches Err(err) && err@ == e,
        },
{
    let names = target_names(registry, name);
    let ghost wanted = names.deep_view();
    let mut devices: Vec<&'a Device> = Vec::new();
    let mut i: usize = 0;
    assert(wanted.take(0) == Seq::<Seq<char>>::empty());
    assert(referents(devices@) == Seq::<Device>::empty());
    while i < names.len()
        invariant
            i <= names.len(),
            wanted == names.deep_view(),
            wanted == targets(*registry, name@),
            lookup_all(registry.devices@, wanted.take(i as int)) == Ok::<Seq<Device>, Seq<char>>(
                referents(devices@),
            ),
        decreases names.len() - i,
    {
        let ghost before = referents(devices@);
        assert(wanted.take(i + 1).drop_last() == wanted.take(i as int));
        assert(wanted.take(i + 1).last() == names[i as int]@);
        match find_device(&registry.devices, names[i].as_str()) {
            None => {
                proof {
                    let upto = wanted.take(i + 1);
                    assert(lookup_all(registry.devices@, upto) == Err::<Seq<Device>, Seq<char>>(
                        names[i as int]@,
                    ));
                    lemma_lookup_all_fails(registry.devices@, wanted, i + 1);
                }
                return Err(ResolveError::DeviceNotFound(names[i].clone()));
            },
            Some(device) => {
                devices.push(device);
                assert(referents(devices@) == before.push(*device));
            },
        }
        i += 1;
    }
    assert(wanted.take(i as int) == wanted);
    if devices.len() > 1 && !all_one_family(&devices) {
        return Err(ResolveError::MixedFamilies(String::from_str(name)));
    }
    let (delay, batch) = match find_group(&registry.groups, name) {
        Some(group) => (
            match group.delay {
                Some(d) => d,
                None => 0,
            },
            match group.batch {
                Some(b) => b,
                None => 1,
            },
        ),
        None => (0, 1),
    };
    Ok(Resolution { devices, delay, batch })
}

/// A name that is missing among the first `n` of `names` is missing among
/// all of them, and is the one reported.
pub proof fn lemma_lookup_all_fails(devices: Seq<Device>, names: Seq<Seq<char>>, n: int)
    requires
        0 <= n <= names.len(),
        lookup_all(devices, names.take(n)) is Err,
    ensures
        lookup_all(devices, names) == lookup_all(devices, names.take(n)),
    decreases names.len() - n,
{
    if n < names.len() {
        assert(names.take(n + 1).drop_last() == names.take(n));
        lemma_lookup_all_fails(devices, names, n + 1);
    } else {
        assert(names.take(n) == names);
    }
}

/// A name that no group has resolves like the one device name that it is:
/// the list of names that it stands for holds that name and nothing else.
pub proof fn lemma_plain_name_stands_for_itself(registry: Tuya, name: Seq<char>)
    requires
        first_group(registry.groups@, name) is None,
    ensures
        targets(registry, name) == seq![name],
{
}

/// The name of a group stands for the group's members, in their order.
pub proof fn lemma_group_name_stands_for_members(registry: Tuya, name: Seq<char>)
    requires
        first_group(registry.groups@, name) is Some,
    ensures
        targets(registry, name) == first_group(registry.groups@, name)->0.devices.deep_view(),
        same_name(first_group(registry.groups@, name)->0.group_name@, name),
        registry.groups@.contains(first_group(registry.groups@, name)->0),
{
    lemma_first_group_is_member(registry.groups@, name);
}

/// The group that `first_group` finds is one of the groups and has the
/// name that was asked for.
pub proof fn lemma_first_group_is_member(groups: Seq<Group>, name: Seq<char>)
    requires
        first_group(groups, name) is Some,
    ensures
        same_name(first_group(groups, name)->0.group_name@, name),
        groups.contains(first_group(groups, name)->0),
    decreases groups.len(),
{
    if same_name(groups[0].group_name@, name) {
        assert(groups[0] == first_group(groups, name)->0);
    } else {
        lemma_first_group_is_member(groups.drop_first(), name);
        let found = first_group(groups, name)->0;
        let i = choose|i: int| 0 <= i < groups.drop_first().len() && groups.drop_first()[i] == found;
        assert(groups[i + 1] == found);
    }
}

/// A list of more than one device that are not all of one family is never
/// resolved: the name is refused as one of mixed families.
pub proof fn lemma_mixed_families_refused(registry: Tuya, name: Seq<char>)
    requires
        lookup_all(registry.devices@, targets(registry, name)) matches Ok(devices)
            && devices.len() > 1 && !homogeneous(devices),
    ensures
        resolve_spec(registry, name) == Err::<ResolutionView, ResolveErrorView>(
            ResolveErrorView::MixedFamilies(name),
        ),
{
}

} // verus!
