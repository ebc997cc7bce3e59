//! What the driver reads of a USB device, and how such reads go wrong.

use vstd::prelude::*;

verus! {

/// The device class of human interface devices.
pub const CLASS_HID: u8 = 3;

/// Size of the packets on the endpoint that reports come from.
pub const REPORT_PACKET_SIZE: u16 = 64;

/// Why a USB request failed.
#[derive(Clone, Copy, PartialEq, Eq, Structural, Debug)]
pub enum UsbError {
    Io,
    InvalidParam,
    Access,
    NoDevice,
    NotFound,
    Busy,
    Timeout,
    Overflow,
    Pipe,
    Interrupted,
    NoMem,
    NotSupported,
    BadDescriptor,
    Other,
}

/// Who made a device, and which of their products it is.
#[derive(Clone, Copy, PartialEq, Eq, Structural, Debug)]
pub struct DeviceIds {
    pub vendor_id: u16,
    pub product_id: u16,
}

/// How an endpoint moves data.
#[derive(Clone, Copy, PartialEq, Eq, Structural, Debug)]
pub enum TransferType {
    Control,
    Isochronous,
    Bulk,
    Interrupt,
}

/// Which way an endpoint moves data.
#[derive(Clone, Copy, PartialEq, Eq, Structural, Debug)]
pub enum Direction {
    /// From the device to the host.
    In,
    /// From the host to the device.
    Out,
}

/// An endpoint of an interface.
#[derive(Clone, Copy, PartialEq, Eq, Structural, Debug)]
pub struct EndpointDescriptor {
    pub address: u8,
    pub direction: Direction,
    pub transfer_type: TransferType,
    pub max_packet_size: u16,
}

/// One setting of an interface.
pub struct InterfaceDescriptor {
    pub interface_number: u8,
    pub class_code: u8,
    pub endpoints: Vec<EndpointDescriptor>,
}

/// An interface with its settings.
pub struct Interface {
    pub descriptors: Vec<InterfaceDescriptor>,
}

/// A configuration of a device.
pub struct Configuration {
    pub interfaces: Vec<Interface>,
}

/// What an [`InterfaceDescriptor`] stands for.
#[verifier::ext_equal]
pub struct InterfaceModel {
    pub interface_number: u8,
    pub class_code: u8,
    pub endpoints: Seq<EndpointDescriptor>,
}

impl View for InterfaceDescriptor {
    type V = InterfaceModel;

    open spec fn view(&self) -> InterfaceModel {
        InterfaceModel {
            interface_number: self.interface_number,
            class_code: self.class_code,
            endpoints: self.endpoints@,
        }
    }
}

impl View for Interface {
    type V = Seq<InterfaceModel>;

    open spec fn view(&self) -> Seq<InterfaceModel> {
        interface_models(self.descriptors@)
    }
}

impl View for Configuration {
    type V = Seq<Seq<InterfaceModel>>;

    open spec fn view(&self) -> Seq<Seq<InterfaceModel>> {
        self.interfaces@.map_values(|interface: Interface| interface@)
    }
}

/// What a run of interface descriptors stands for.
pub open spec fn interface_models(descriptors: Seq<InterfaceDescriptor>) -> Seq<InterfaceModel> {
    descriptors.map_values(|descriptor: InterfaceDescriptor| descriptor@)
}

/// What a run of configurations stands for.
pub open spec fn configuration_models(configurations: Seq<Configuration>) -> Seq<
    Seq<Seq<InterfaceModel>>,
> {
    configurations.map_values(|configuration: Configuration| configuration@)
}

/// Whether an interface descriptor is that of a human interface device.
pub open spec fn is_hid(interface: InterfaceModel) -> bool {
    interface.class_code == CLASS_HID
}

/// The interface descriptors of human interface devices in a device's
/// configurations, in their order.
pub open spec fn hid_interfaces(configurations: Seq<Seq<Seq<InterfaceModel>>>) -> Seq<
    InterfaceModel,
> {
    configurations.flatten().flatten().filter(|interface: InterfaceModel| is_hid(interface))
}

/// Whether an endpoint sends the reports that the driver wants: an interrupt
/// endpoint towards the host, with packets of the reports' size.
pub open spec fn is_report_endpoint(endpoint: EndpointDescriptor) -> bool {
    &&& endpoint.direction == Direction::In
    &&& endpoint.transfer_type == TransferType::Interrupt
    &&& endpoint.max_packet_size == REPORT_PACKET_SIZE
}

/// The address of the last endpoint that sends reports, or the address so far
/// if there is none.
pub open spec fn report_endpoint(endpoints: Seq<EndpointDescriptor>, so_far: u8) -> u8
    decreases endpoints.len(),
{
    if endpoints.len() == 0 {
        so_far
    } else if is_report_endpoint(endpoints.last()) {
        endpoints.last().address
    } else {
        report_endpoint(endpoints.drop_last(), so_far)
    }
}

/// The address after a run of interfaces: each may bring a later endpoint.
pub open spec fn report_endpoint_of(interfaces: Seq<InterfaceModel>, so_far: u8) -> u8
    decreases interfaces.len(),
{
    if interfaces.len() == 0 {
        so_far
    } else {
        report_endpoint(
            interfaces.last().endpoints,
            report_endpoint_of(interfaces.drop_last(), so_far),
        )
    }
}

impl Clone for InterfaceDescriptor {
    fn clone(&self) -> (copy: InterfaceDescriptor)
        ensures
            copy@ == self@,
    {
        let mut endpoints: Vec<EndpointDescriptor> = Vec::new();
        for i in 0..self.endpoints.len()
            invariant
                endpoints@ == self.endpoints@.take(i as int),
        {
            endpoints.push(self.endpoints[i]);
        }
        InterfaceDescriptor {
            interface_number: self.interface_number,
            class_code: self.class_code,
            endpoints,
        }
    }
}

/// Adds the human interface descriptors of an interface to those found so far.
fn collect_hid_descriptors(interface: &Interface, found: &mut Vec<InterfaceDescriptor>)
    ensures
        interface_models(final(found)@) == interface_models(old(found)@) + interface@.filter(
            |interface: InterfaceModel| is_hid(interface),
        ),
{
    let ghost pred = |interface: InterfaceModel| is_hid(interface);
    let ghost models = interface@;
    let ghost start = interface_models(found@);
    proof {
        reveal(Seq::filter);
        assert(models.take(0).filter(pred) =~= Seq::empty());
    }
    for i in 0..interface.descriptors.len()
        invariant
            models == interface@,
            pred == (|interface: InterfaceModel| is_hid(interface)),
            interface_models(found@) =~= start + models.take(i as int).filter(pred),
    {
        proof {
            assert(models.take(i + 1) =~= models.take(i as int).push(models[i as int]));
            models.take(i as int).lemma_filter_push(models[i as int], pred);
        }
        let ghost before = found@;
        if interface.descriptors[i].class_code == CLASS_HID {
            found.push(interface.descriptors[i].clone());
            assert(interface_models(found@) =~= interface_models(before).push(models[i as int]));
        }
    }
    assert(models.take(models.len() as int) =~= models);
}

/// Concatenated runs flatten to the concatenation of what they flatten to.
proof fn lemma_flatten_adds<A>(first: Seq<Seq<A>>, second: Seq<Seq<A>>)
    ensures
        (first + second).flatten() == first.flatten() + second.flatten(),
    decreases second.len(),
{
    if second.len() == 0 {
        assert(first + second =~= first);
        assert(first.flatten() + second.flatten() =~= first.flatten());
    } else {
        lemma_flatten_adds(first, second.drop_last());
        assert(first + second =~= (first + second.drop_last()).push(second.last()));
        assert(second =~= second.drop_last().push(second.last()));
        (first + second.drop_last()).lemma_flatten_push(second.last());
        second.drop_last().lemma_flatten_push(second.last());
        assert((first + second).flatten() =~= first.flatten() + second.flatten());
    }
}

/// The interface descriptors of human interface devices in a device's
/// configurations, in their order.
pub fn get_hid_interface_descriptors(config_descriptors: &Vec<Configuration>) -> (found: Vec<
    InterfaceDescriptor,
>)
    ensures
        interface_models(found@) == hid_interfaces(configuration_models(config_descriptors@)),
{
    let ghost pred = |interface: InterfaceModel| is_hid(interface);
    let ghost models = configuration_models(config_descriptors@);
    let mut found: Vec<InterfaceDescriptor> = Vec::new();
    proof {
        assert(models.take(0) =~= Seq::empty());
        assert(hid_interfaces(models.take(0)) =~= Seq::empty());
    }
    for i in 0..config_descriptors.len()
        invariant
            models == configuration_models(config_descriptors@),
            pred == (|interface: InterfaceModel| is_hid(interface)),
            interface_models(found@) =~= hid_interfaces(models.take(i as int)),
    {
        let configuration = &config_descriptors[i];
        let ghost inner = configuration@;
        let ghost start = interface_models(found@);
        assert(inner.take(0).flatten().filter(pred) =~= Seq::empty());
        for j in 0..configuration.interfaces.len()
            invariant
                inner == configuration@,
                pred == (|interface: InterfaceModel| is_hid(interface)),
                interface_models(found@) =~= start + inner.take(j as int).flatten().filter(pred),
        {
            proof {
                assert(inner.take(j + 1) =~= inner.take(j as int).push(inner[j as int]));
                inner.take(j as int).lemma_flatten_push(inner[j as int]);
                Seq::filter_distributes_over_add(inner.take(j as int).flatten(), inner[j as int], pred);
            }
            collect_hid_descriptors(&configuration.interfaces[j], &mut found);
        }
        proof {
            assert(inner.take(inner.len() as int) =~= inner);
            assert(models.take(i + 1) =~= models.take(i as int).push(inner));
            models.take(i as int).lemma_flatten_push(inner);
            lemma_flatten_adds(models.take(i as int).flatten(), inner);
            Seq::filter_distributes_over_add(
                models.take(i as int).flatten().flatten(),
                inner.flatten(),
                pred,
            );
        }
    }
    assert(models.take(models.len() as int) =~= models);
    found
}

/// The configuration in a reply, if it could be read.
pub open spec fn configuration_in(reply: Result<Configuration, UsbError>) -> Option<
    Seq<Seq<InterfaceModel>>,
> {
    match reply {
        Ok(configuration) => Some(configuration@),
        Err(_) => None,
    }
}

/// The configurations that could be read, in their order.
pub open spec fn configurations_in(replies: Seq<Result<Configuration, UsbError>>) -> Seq<
    Seq<Seq<InterfaceModel>>,
> {
    replies.filter_map(|reply: Result<Configuration, UsbError>| configuration_in(reply))
}

/// The configurations that could be read, in their order. The others are left
/// out.
pub fn get_configurations(replies: Vec<Result<Configuration, UsbError>>) -> (configurations: Vec<
    Configuration,
>)
    ensures
        configuration_models(configurations@) == configurations_in(replies@),
{
    let ghost all = replies@;
    let ghost read = |reply: Result<Configuration, UsbError>| configuration_in(reply);
    let mut configurations: Vec<Configuration> = Vec::new();
    assert(all.take(0).filter_map(read) =~= Seq::empty());
    for reply in it: replies
        invariant
            it.seq() == all,
            read == (|reply: Result<Configuration, UsbError>| configuration_in(reply)),
            configuration_models(configurations@) =~= all.take(it.index() as int).filter_map(read),
    {
        let ghost index = it.index() as int;
        let ghost before = configurations@;
        proof {
            all.lemma_filter_map_take_succ(read, index);
            assert(all[index] == reply);
        }
        match reply {
            Ok(configuration) => {
                configurations.push(configuration);
                assert(configuration_models(configurations@) =~= configuration_models(before).push(
                    configuration@,
                ));
            },
            Err(_) => {},
        }
    }
    assert(all.take(all.len() as int) =~= all);
    configurations
}

/// A descriptor stands for its own number, class and endpoints, and interfaces
/// and configurations for what they hold, in order.
pub proof fn law_descriptors_stand_for_themselves(
    descriptor: InterfaceDescriptor,
    interface: Interface,
    configuration: Configuration,
    reply: Result<Configuration, UsbError>,
)
    ensures
        descriptor@.interface_number == descriptor.interface_number,
        descriptor@.class_code == descriptor.class_code,
        descriptor@.endpoints == descriptor.endpoints@,
        interface@.len() == interface.descriptors@.len(),
        forall|i: int|
            0 <= i < interface@.len() ==> #[trigger] interface@[i] == interface.descriptors@[i]@,
        configuration@.len() == configuration.interfaces@.len(),
        forall|i: int|
            0 <= i < configuration@.len() ==> #[trigger] configuration@[i]
                == configuration.interfaces@[i]@,
{
}

/// Runs of descriptors and of configurations stand for what they hold, in order.
pub proof fn law_runs_stand_for_what_they_hold(
    descriptors: Seq<InterfaceDescriptor>,
    configurations: Seq<Configuration>,
)
    ensures
        interface_models(descriptors).len() == descriptors.len(),
        forall|i: int|
            0 <= i < descriptors.len() ==> #[trigger] interface_models(descriptors)[i]
                == descriptors[i]@,
        configuration_models(configurations).len() == configurations.len(),
        forall|i: int|
            0 <= i < configurations.len() ==> #[trigger] configuration_models(configurations)[i]
                == configurations[i]@,
{
}

/// The descriptors that are found are those of class 3, and they are found one
/// after the other: in one configuration after the other, in one interface after
/// the other, in one descriptor after the other.
pub proof fn law_hid_descriptors_are_found_in_order(
    configurations: (Seq<Seq<Seq<InterfaceModel>>>, Seq<Seq<Seq<InterfaceModel>>>),
    interfaces: (Seq<Seq<InterfaceModel>>, Seq<Seq<InterfaceModel>>),
    descriptors: (Seq<InterfaceModel>, Seq<InterfaceModel>),
    descriptor: InterfaceModel,
)
    ensures
        hid_interfaces(Seq::empty()) == Seq::<InterfaceModel>::empty(),
        hid_interfaces(configurations.0 + configurations.1) == hid_interfaces(configurations.0)
            + hid_interfaces(configurations.1),
        hid_interfaces(seq![interfaces.0 + interfaces.1]) == hid_interfaces(seq![interfaces.0])
            + hid_interfaces(seq![interfaces.1]),
        hid_interfaces(seq![seq![descriptors.0 + descriptors.1]]) == hid_interfaces(
            seq![seq![descriptors.0]],
        ) + hid_interfaces(seq![seq![descriptors.1]]),
        descriptor.class_code == 3 ==> hid_interfaces(seq![seq![seq![descriptor]]]) == seq![
            descriptor,
        ],
        descriptor.class_code != 3 ==> hid_interfaces(seq![seq![seq![descriptor]]]) == Seq::<
            InterfaceModel,
        >::empty(),
{
    let pred = |interface: InterfaceModel| is_hid(interface);
    reveal_with_fuel(Seq::filter, 2);
    assert(hid_interfaces(Seq::empty()) =~= Seq::empty());
    lemma_flatten_adds(configurations.0, configurations.1);
    lemma_flatten_adds(configurations.0.flatten(), configurations.1.flatten());
    Seq::filter_distributes_over_add(
        configurations.0.flatten().flatten(),
        configurations.1.flatten().flatten(),
        pred,
    );
    seq![interfaces.0 + interfaces.1].lemma_flatten_one_element();
    seq![interfaces.0].lemma_flatten_one_element();
    seq![interfaces.1].lemma_flatten_one_element();
    lemma_flatten_adds(interfaces.0, interfaces.1);
    Seq::filter_distributes_over_add(interfaces.0.flatten(), interfaces.1.flatten(), pred);
    seq![seq![descriptors.0 + descriptors.1]].lemma_flatten_one_element();
    seq![seq![descriptors.0]].lemma_flatten_one_element();
    seq![seq![descriptors.1]].lemma_flatten_one_element();
    seq![descriptors.0 + descriptors.1].lemma_flatten_one_element();
    seq![descriptors.0].lemma_flatten_one_element();
    seq![descriptors.1].lemma_flatten_one_element();
    Seq::filter_distributes_over_add(descriptors.0, descriptors.1, pred);
    seq![seq![seq![descriptor]]].lemma_flatten_one_element();
    seq![seq![descriptor]].lemma_flatten_one_element();
    let one = seq![descriptor];
    assert(one.drop_last() =~= Seq::empty());
    assert(hid_interfaces(seq![seq![seq![descriptor]]]) == one.filter(pred));
    if descriptor.class_code == 3 {
        assert(one.filter(pred) =~= one);
    } else {
        assert(one.filter(pred) =~= Seq::empty());
    }
}

/// The configurations that could be read are kept in order, and no other is.
pub proof fn law_readable_configurations_are_kept(
    replies: Seq<Result<Configuration, UsbError>>,
    reply: Result<Configuration, UsbError>,
)
    ensures
        configurations_in(Seq::empty()) == Seq::<Seq<Seq<InterfaceModel>>>::empty(),
        reply matches Ok(configuration) ==> configurations_in(replies.push(reply))
            == configurations_in(replies).push(configuration@),
        reply is Err ==> configurations_in(replies.push(reply)) == configurations_in(replies),
{
    reveal(Seq::filter_map);
    assert(replies.push(reply).drop_last() =~= replies);
    assert(configurations_in(Seq::empty()) =~= Seq::empty());
    if let Ok(configuration) = reply {
        assert(configurations_in(replies.push(reply)) =~= configurations_in(replies).push(
            configuration@,
        ));
    }
}

/// Reports are read from an endpoint towards the host, of the interrupt kind,
/// with packets of 64 bytes; of several such, from the last; without one, the
/// address stays.
pub proof fn law_last_fitting_endpoint_wins(
    endpoints: Seq<EndpointDescriptor>,
    endpoint: EndpointDescriptor,
    so_far: u8,
)
    ensures
        report_endpoint(Seq::empty(), so_far) == so_far,
        report_endpoint(endpoints.push(endpoint), so_far) == (if endpoint.direction == Direction::In
            && endpoint.transfer_type == TransferType::Interrupt && endpoint.max_packet_size == 64 {
            endpoint.address
        } else {
            report_endpoint(endpoints, so_far)
        }),
{
    assert(endpoints.push(endpoint).drop_last() =~= endpoints);
}

/// Endpoints of later interfaces count as later: a run of interfaces is one run
/// of endpoints.
pub proof fn law_later_interfaces_count_as_later(
    interfaces: Seq<InterfaceModel>,
    interface: InterfaceModel,
    so_far: u8,
)
    ensures
        report_endpoint_of(Seq::empty(), so_far) == so_far,
        report_endpoint_of(interfaces.push(interface), so_far) == report_endpoint(
            interface.endpoints,
            report_endpoint_of(interfaces, so_far),
        ),
{
    assert(interfaces.push(interface).drop_last() =~= interfaces);
}

/// What is found and what is kept is what is said of it.
pub proof fn law_descriptors_are_found_as_said(
    configurations: Vec<Configuration>,
    found: Vec<InterfaceDescriptor>,
    replies: Vec<Result<Configuration, UsbError>>,
    kept: Vec<Configuration>,
)
    requires
        call_ensures(get_hid_interface_descriptors, (&configurations,), found),
        call_ensures(get_configurations, (replies,), kept),
    ensures
        interface_models(found@) == hid_interfaces(configuration_models(configurations@)),
        configuration_models(kept@) == configurations_in(replies@),
{
}

} // verus!
