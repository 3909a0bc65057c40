//! Device and resource acquisition: a compute `Interface` that owns one
//! logical device and one queue, and factory methods for GPU-resident
//! storage images, host-visible byte buffers, and command buffer builders.
//!
//! Every call into the graphics binding layer stands behind a trusted item:
//! a declaration of the platform type, or a small wrapper whose contract
//! states what the binding layer's source shows. Whether a device exists,
//! which queue families it has and whether an allocation succeeds are
//! decided by the machine, so those wrappers promise nothing of success;
//! the selection among what the platform reports, and the data handed to
//! it, are verified here.

use vstd::prelude::*;

use crate::select::first_graphics_family;
use crate::select::has_graphics_family;
use crate::select::is_first_graphics_family;
use crate::select::render_candidate;
use crate::select::rendering_queue_family;
use crate::select::QueueFamilySupport;
use crate::vec2::extent_of;
use crate::vec2::UVec2;

use vulkano::buffer::Buffer;
use vulkano::buffer::BufferCreateInfo;
use vulkano::buffer::BufferUsage;
use vulkano::buffer::Subbuffer;
use vulkano::command_buffer::allocator::StandardCommandBufferAllocator;
use vulkano::command_buffer::allocator::StandardCommandBufferAllocatorCreateInfo;
use vulkano::command_buffer::AutoCommandBufferBuilder;
use vulkano::command_buffer::CommandBufferUsage;
use vulkano::command_buffer::PrimaryAutoCommandBuffer;
use vulkano::device::physical::PhysicalDevice;
use vulkano::device::Device;
use vulkano::device::DeviceCreateInfo;
use vulkano::device::DeviceExtensions;
use vulkano::device::Queue;
use vulkano::device::QueueCreateInfo;
use vulkano::device::QueueFlags;
use vulkano::format::Format;
use vulkano::image::Image;
use vulkano::image::ImageCreateInfo;
use vulkano::image::ImageType;
use vulkano::image::ImageUsage;
use vulkano::instance::Instance;
use vulkano::instance::InstanceCreateInfo;
use vulkano::memory::allocator::AllocationCreateInfo;
use vulkano::memory::allocator::FreeListAllocator;
use vulkano::memory::allocator::GenericMemoryAllocator;
use vulkano::memory::allocator::MemoryTypeFilter;
use vulkano::memory::allocator::StandardMemoryAllocator;
use vulkano::VulkanLibrary;

use std::sync::Arc;

verus! {

#[verifier::external_type_specification]
#[verifier::external_body]
pub struct ExVulkanLibrary(VulkanLibrary);

#[verifier::external_type_specification]
#[verifier::external_body]
pub struct ExInstance(Instance);

#[verifier::external_type_specification]
#[verifier::external_body]
pub struct ExPhysicalDevice(PhysicalDevice);

#[verifier::external_type_specification]
#[verifier::external_body]
pub struct ExDevice(Device);

#[verifier::external_type_specification]
#[verifier::external_body]
pub struct ExQueue(Queue);

#[verifier::external_type_specification]
#[verifier::external_body]
#[verifier::reject_recursive_types(S)]
pub struct ExGenericMemoryAllocator<S>(GenericMemoryAllocator<S>);

#[verifier::external_type_specification]
#[verifier::external_body]
pub struct ExFreeListAllocator(FreeListAllocator);

#[verifier::external_type_specification]
#[verifier::external_body]
pub struct ExStandardCommandBufferAllocator(StandardCommandBufferAllocator);

#[verifier::external_type_specification]
#[verifier::external_body]
pub struct ExImage(Image);

#[verifier::external_type_specification]
#[verifier::external_body]
pub struct ExFormat(Format);

#[verifier::external_type_specification]
#[verifier::external_body]
#[verifier::reject_recursive_types(T)]
pub struct ExSubbuffer<T: ?Sized>(Subbuffer<T>);

#[verifier::external_type_specification]
#[verifier::external_body]
#[verifier::reject_recursive_types(L)]
pub struct ExAutoCommandBufferBuilder<L>(AutoCommandBufferBuilder<L>);

#[verifier::external_type_specification]
#[verifier::external_body]
pub struct ExPrimaryAutoCommandBuffer(PrimaryAutoCommandBuffer);

/// Why acquiring a device or allocating a resource failed.
#[derive(Copy, Clone, Debug, PartialEq, Eq, Structural)]
pub enum InterfaceError {
    /// The platform's graphics library could not be loaded.
    LibraryLoad,
    /// The instance could not be created.
    InstanceCreation,
    /// The physical devices could not be enumerated.
    EnumerateDevices,
    /// The platform reports no physical device at all.
    NoPhysicalDevice,
    /// The chosen device has no queue family that supports graphics.
    NoGraphicsQueueFamily,
    /// The logical device or its queue could not be created.
    DeviceCreation,
    /// A storage image could not be allocated.
    ImageAllocation,
    /// A host-visible buffer could not be allocated.
    BufferAllocation,
    /// A command buffer recording could not be begun.
    CommandBufferBegin,
}

/// The byte length of a host-visible buffer, fixed when it is created.
pub uninterp spec fn subbuffer_len(b: Subbuffer<[u8]>) -> u64;

/// The bytes a host-visible buffer was filled with when it was created.
/// Device commands recorded later may overwrite them.
pub uninterp spec fn subbuffer_init(b: Subbuffer<[u8]>) -> Seq<u8>;

/// The extent triple a storage image was created with.
pub uninterp spec fn image_extent(img: Arc<Image>) -> Seq<u32>;

/// The pixel format a storage image was created with, as `Image::format`
/// returns it.
pub uninterp spec fn image_format(img: Arc<Image>) -> Format;

/// The index of the queue family a queue was created on, as
/// `Queue::queue_family_index` returns it.
pub uninterp spec fn queue_family_of(q: Arc<Queue>) -> u32;

/// One entry per queue family of a physical device, in the platform's
/// order, true where the family supports graphics operations. A fixed
/// property of the device, read from
/// `PhysicalDevice::queue_family_properties`.
pub uninterp spec fn graphics_families_of(physical: Arc<PhysicalDevice>) -> Seq<bool>;

/// The human-readable description of a physical device: its name and its
/// kind, as read from `PhysicalDevice::properties`.
pub uninterp spec fn device_description(physical: Arc<PhysicalDevice>) -> Seq<char>;

/// The index of the queue family a command buffer recording was begun for,
/// the one `AutoCommandBufferBuilder::primary` was given; the recording
/// stores it, and its `queue_family_index` accessor returns it.
pub uninterp spec fn builder_queue_family(
    b: AutoCommandBufferBuilder<PrimaryAutoCommandBuffer>,
) -> u32;

/// Some queue family of the device supports graphics operations.
pub open spec fn device_has_graphics_family(physical: Arc<PhysicalDevice>) -> bool {
    has_graphics_family(graphics_families_of(physical))
}

/// Relies on `VulkanLibrary::new`: loads the platform's graphics library,
/// failing when none is installed.
#[verifier::external_body]
fn load_library() -> (r: Result<Arc<VulkanLibrary>, InterfaceError>)
    ensures
        r matches Err(e) ==> e == InterfaceError::LibraryLoad,
{
    VulkanLibrary::new().map_err(|_| InterfaceError::LibraryLoad)
}

/// Relies on `Instance::new` with default creation parameters (no
/// extensions, no layers).
#[verifier::external_body]
fn create_instance(library: Arc<VulkanLibrary>) -> (r: Result<Arc<Instance>, InterfaceError>)
    ensures
        r matches Err(e) ==> e == InterfaceError::InstanceCreation,
{
    Instance::new(library, InstanceCreateInfo::default())
        .map_err(|_| InterfaceError::InstanceCreation)
}

/// Relies on `Instance::enumerate_physical_devices`: the devices the
/// platform reports, in the platform's order. Which devices exist is
/// machine-dependent, so nothing is promised of the list.
#[verifier::external_body]
fn enumerate_devices(instance: &Arc<Instance>) -> (r: Result<
    Vec<Arc<PhysicalDevice>>,
    InterfaceError,
>)
    ensures
        r matches Err(e) ==> e == InterfaceError::EnumerateDevices,
{
    match instance.enumerate_physical_devices() {
        Ok(it) => Ok(it.collect()),
        Err(_) => Err(InterfaceError::EnumerateDevices),
    }
}

/// Relies on `PhysicalDevice::queue_family_properties` and
/// `QueueFlags::intersects`: one entry per queue family of the device, in
/// the platform's order, true where the family supports graphics
/// operations. The family count comes from the platform as a 32-bit count,
/// so the list's length fits one.
#[verifier::external_body]
fn graphics_capable_families(physical: &Arc<PhysicalDevice>) -> (r: Vec<bool>)
    ensures
        r@ == graphics_families_of(*physical),
        r@.len() <= u32::MAX,
{
    physical
        .queue_family_properties()
        .iter()
        .map(|f| f.queue_flags.intersects(QueueFlags::GRAPHICS))
        .collect()
}

/// Relies on `PhysicalDevice::properties`: a human-readable description,
/// the device's name and its kind.
#[verifier::external_body]
fn describe_device(physical: &Arc<PhysicalDevice>) -> (r: String)
    ensures
        r@ == device_description(*physical),
{
    let properties = physical.properties();
    format!("{} ({:?})", properties.device_name, properties.device_type)
}

/// Relies on `Device::new`: creates the logical device with one queue of
/// the given family at the default priority, no extensions and no extra
/// features, and hands back that queue, which `Queue::queue_family_index`
/// reports as created on that family.
#[verifier::external_body]
fn create_device_and_queue(physical: Arc<PhysicalDevice>, queue_family_index: u32) -> (r: Result<
    (Arc<Device>, Arc<Queue>),
    InterfaceError,
>)
    ensures
        r matches Ok(p) ==> queue_family_of(p.1) == queue_family_index,
        r matches Err(e) ==> e == InterfaceError::DeviceCreation,
{
    let create_info = DeviceCreateInfo {
        queue_create_infos: vec![QueueCreateInfo { queue_family_index, ..Default::default() }],
        ..Default::default()
    };
    match Device::new(physical, create_info) {
        Ok((device, mut queues)) => match queues.next() {
            Some(queue) => Ok((device, queue)),
            None => Err(InterfaceError::DeviceCreation),
        },
        Err(_) => Err(InterfaceError::DeviceCreation),
    }
}

/// Relies on `Arc::clone`: the clone is the same device handle.
#[verifier::external_body]
fn clone_device(device: &Arc<Device>) -> (r: Arc<Device>)
    ensures
        r == *device,
{
    device.clone()
}

/// Relies on `Arc::clone`: the clone is the same queue handle.
#[verifier::external_body]
fn clone_queue(queue: &Arc<Queue>) -> (r: Arc<Queue>)
    ensures
        r == *queue,
{
    queue.clone()
}

/// Relies on `Arc::clone`: the clone is the same physical-device handle.
#[verifier::external_body]
fn clone_physical(physical: &Arc<PhysicalDevice>) -> (r: Arc<PhysicalDevice>)
    ensures
        r == *physical,
{
    physical.clone()
}

/// Relies on `Device::new`: creates a logical device for presenting, with
/// one queue of the given family at the default priority and the swapchain
/// extension enabled, and hands back that queue, which
/// `Queue::queue_family_index` reports as created on that family. Features
/// are left at their defaults: enabling everything the device supports can
/// demand extensions this demo does not enable.
#[verifier::external_body]
fn create_device_with_swapchain(physical: Arc<PhysicalDevice>, queue_family_index: u32) -> (r:
    Result<(Arc<Device>, Arc<Queue>), InterfaceError>)
    ensures
        r matches Ok(p) ==> queue_family_of(p.1) == queue_family_index,
        r matches Err(e) ==> e == InterfaceError::DeviceCreation,
{
    let create_info = DeviceCreateInfo {
        queue_create_infos: vec![QueueCreateInfo { queue_family_index, ..Default::default() }],
        enabled_extensions: DeviceExtensions { khr_swapchain: true, ..Default::default() },
        ..Default::default()
    };
    match Device::new(physical, create_info) {
        Ok((device, mut queues)) => match queues.next() {
            Some(queue) => Ok((device, queue)),
            None => Err(InterfaceError::DeviceCreation),
        },
        Err(_) => Err(InterfaceError::DeviceCreation),
    }
}

/// Relies on `StandardMemoryAllocator::new_default`.
#[verifier::external_body]
fn new_memory_allocator(device: Arc<Device>) -> (r: Arc<StandardMemoryAllocator>) {
    Arc::new(StandardMemoryAllocator::new_default(device))
}

/// Relies on `StandardCommandBufferAllocator::new` with default creation
/// parameters.
#[verifier::external_body]
fn new_command_buffer_allocator(device: Arc<Device>) -> (r: Arc<
    StandardCommandBufferAllocator,
>) {
    Arc::new(StandardCommandBufferAllocator::new(
        device,
        StandardCommandBufferAllocatorCreateInfo::default(),
    ))
}

/// Relies on `Image::new`: allocates a device-local 2-D image with the
/// given extent and format, usable as a shader storage target and as a
/// transfer source; `Image::extent` and `Image::format` return what it was
/// created with.
#[verifier::external_body]
fn create_storage_image(
    allocator: &Arc<StandardMemoryAllocator>,
    extent: [u32; 3],
    format: Format,
) -> (r: Result<Arc<Image>, InterfaceError>)
    ensures
        r matches Ok(img) ==> image_extent(img) == extent@ && image_format(img) == format,
        r matches Err(e) ==> e == InterfaceError::ImageAllocation,
{
    let create_info = ImageCreateInfo {
        image_type: ImageType::Dim2d,
        format,
        extent,
        usage: ImageUsage::STORAGE | ImageUsage::TRANSFER_SRC,
        ..Default::default()
    };
    Image::new(allocator.clone(), create_info, AllocationCreateInfo::default())
        .map_err(|_| InterfaceError::ImageAllocation)
}

/// Relies on `Buffer::from_iter`: allocates a host-visible buffer holding
/// exactly the given bytes, preferring memory the host can read back. It
/// panics on an empty iterator, so one byte at least is required.
#[verifier::external_body]
fn create_host_buffer(allocator: &Arc<StandardMemoryAllocator>, data: Vec<u8>) -> (r: Result<
    Subbuffer<[u8]>,
    InterfaceError,
>)
    requires
        data@.len() >= 1,
    ensures
        r matches Ok(b) ==> subbuffer_len(b) == data@.len() && subbuffer_init(b) == data@,
        r matches Err(e) ==> e == InterfaceError::BufferAllocation,
{
    let create_info = BufferCreateInfo {
        usage: BufferUsage::TRANSFER_SRC | BufferUsage::TRANSFER_DST | BufferUsage::STORAGE_BUFFER,
        ..Default::default()
    };
    let allocation_info = AllocationCreateInfo {
        memory_type_filter: MemoryTypeFilter::PREFER_HOST | MemoryTypeFilter::HOST_RANDOM_ACCESS,
        ..Default::default()
    };
    Buffer::from_iter(allocator.clone(), create_info, allocation_info, data)
        .map_err(|_| InterfaceError::BufferAllocation)
}

/// Relies on `AutoCommandBufferBuilder::primary`: begins recording a
/// single-use primary command buffer for the given queue family, which the
/// recording keeps as the family it was created for.
#[verifier::external_body]
fn begin_primary_command_buffer(
    allocator: &Arc<StandardCommandBufferAllocator>,
    queue_family_index: u32,
) -> (r: Result<AutoCommandBufferBuilder<PrimaryAutoCommandBuffer>, InterfaceError>)
    ensures
        r matches Ok(b) ==> builder_queue_family(b) == queue_family_index,
        r matches Err(e) ==> e == InterfaceError::CommandBufferBegin,
{
    AutoCommandBufferBuilder::primary(
        allocator.clone(),
        queue_family_index,
        CommandBufferUsage::OneTimeSubmit,
    ).map_err(|_| InterfaceError::CommandBufferBegin)
}

/// Pick the device the compute interface runs on: the first enumerated
/// physical device that exposes a graphics-capable queue family, together
/// with the index of that device's first such family. Fails with
/// `NoPhysicalDevice` exactly when the list is empty, and with
/// `NoGraphicsQueueFamily` exactly when no listed device has a
/// graphics-capable family.
pub fn select_compute_device(devices: &Vec<Arc<PhysicalDevice>>) -> (r: Result<
    (Arc<PhysicalDevice>, u32),
    InterfaceError,
>)
    ensures
        devices@.len() == 0 ==> r == Result::<
            (Arc<PhysicalDevice>, u32),
            InterfaceError,
        >::Err(InterfaceError::NoPhysicalDevice),
        devices@.len() > 0 && (forall|k: int|
            0 <= k < devices@.len() ==> !device_has_graphics_family(devices@[k])) ==> r
            == Result::<(Arc<PhysicalDevice>, u32), InterfaceError>::Err(
            InterfaceError::NoGraphicsQueueFamily,
        ),
        (exists|k: int| 0 <= k < devices@.len() && device_has_graphics_family(devices@[k]))
            ==> r is Ok,
        r matches Ok(p) ==> exists|i: int|
            {
                &&& 0 <= i < devices@.len()
                &&& p.0 == devices@[i]
                &&& #[trigger] device_has_graphics_family(devices@[i])
                &&& forall|k: int| 0 <= k < i ==> !device_has_graphics_family(devices@[k])
                &&& is_first_graphics_family(graphics_families_of(p.0), p.1 as int)
            },
        r matches Err(e) ==> (e == InterfaceError::NoPhysicalDevice || e
            == InterfaceError::NoGraphicsQueueFamily),
{
    if devices.len() == 0 {
        return Err(InterfaceError::NoPhysicalDevice);
    }
    let mut i: usize = 0;
    while i < devices.len()
        invariant
            i <= devices@.len(),
            forall|k: int| 0 <= k < i ==> !device_has_graphics_family(devices@[k]),
        decreases devices@.len() - i,
    {
        let flags = graphics_capable_families(&devices[i]);
        match first_graphics_family(&flags) {
            Some(f) => {
                proof {
                    assert(graphics_families_of(devices@[i as int])[f as int]);
                    assert(device_has_graphics_family(devices@[i as int]));
                    assert(f as u32 as int == f as int);
                }
                return Ok((clone_physical(&devices[i]), f as u32));
            },
            None => {
                proof {
                    assert(!device_has_graphics_family(devices@[i as int]));
                }
            },
        }
        i = i + 1;
    }
    Err(InterfaceError::NoGraphicsQueueFamily)
}

/// Create the logical device and queue the render loop runs on, from what
/// the host reports about the device's queue families: the first family
/// that supports graphics operations and can present to the surface is
/// chosen, and the device is created with the swapchain extension for one
/// queue of that family. Fails with `NoGraphicsQueueFamily` exactly when no
/// family qualifies.
pub fn create_render_device(
    physical: Arc<PhysicalDevice>,
    families: &Vec<QueueFamilySupport>,
) -> (r: Result<(Arc<Device>, Arc<Queue>, u32), InterfaceError>)
    requires
        families@.len() <= u32::MAX,
    ensures
        (forall|j: int| 0 <= j < families@.len() ==> !render_candidate(families@[j])) <==> r
            == Result::<(Arc<Device>, Arc<Queue>, u32), InterfaceError>::Err(
            InterfaceError::NoGraphicsQueueFamily,
        ),
        r matches Ok(t) ==> {
            &&& t.2 < families@.len()
            &&& render_candidate(families@[t.2 as int])
            &&& forall|j: int| 0 <= j < t.2 ==> !render_candidate(families@[j])
            &&& queue_family_of(t.1) == t.2
        },
        r matches Err(e) ==> (e == InterfaceError::NoGraphicsQueueFamily || e
            == InterfaceError::DeviceCreation),
{
    let family = match rendering_queue_family(families) {
        Some(i) => i,
        None => {
            return Err(InterfaceError::NoGraphicsQueueFamily);
        },
    };
    let queue_family_index = family as u32;
    match create_device_with_swapchain(physical, queue_family_index) {
        Ok((device, queue)) => Ok((device, queue, queue_family_index)),
        Err(e) => Err(e),
    }
}

/// A vector of `n` zero bytes: what a fresh host-visible buffer is filled
/// with.
pub fn zero_bytes(n: usize) -> (r: Vec<u8>)
    ensures
        r@ == Seq::new(n as nat, |i: int| 0u8),
{
    let mut v: Vec<u8> = Vec::new();
    let mut i: usize = 0;
    while i < n
        invariant
            i <= n,
            v@.len() == i,
            forall|j: int| 0 <= j < i ==> v@[j] == 0u8,
        decreases n - i,
    {
        v.push(0u8);
        i = i + 1;
    }
    proof {
        assert(v@ =~= Seq::new(n as nat, |i: int| 0u8));
    }
    v
}

/// One logical device and one command queue, shared by every resource the
/// factory methods allocate.
pub struct Interface {
    device: Arc<Device>,
    queue: Arc<Queue>,
    memory_allocator: Arc<StandardMemoryAllocator>,
    command_buffer_allocator: Arc<StandardCommandBufferAllocator>,
    info: String,
    queue_family_index: u32,
    physical: Ghost<Arc<PhysicalDevice>>,
}

impl Interface {
    /// The owned device handle.
    pub closed spec fn device_spec(&self) -> Arc<Device> {
        self.device
    }

    /// The owned queue handle.
    pub closed spec fn queue_spec(&self) -> Arc<Queue> {
        self.queue
    }

    /// The human-readable device description.
    pub closed spec fn info_spec(&self) -> Seq<char> {
        self.info@
    }

    /// The physical device the interface was built on.
    pub closed spec fn physical_spec(&self) -> Arc<PhysicalDevice> {
        self.physical@
    }

    /// The index of the queue family the owned queue was created on.
    pub closed spec fn queue_family_index_spec(&self) -> u32 {
        self.queue_family_index
    }

    /// What construction establishes and every method keeps: the owned
    /// queue was created on the remembered family index, that index is the
    /// chosen device's first graphics-capable queue family, and the
    /// description is that device's.
    pub open spec fn wf(&self) -> bool {
        &&& queue_family_of(self.queue_spec()) == self.queue_family_index_spec()
        &&& is_first_graphics_family(
            graphics_families_of(self.physical_spec()),
            self.queue_family_index_spec() as int,
        )
        &&& self.info_spec() == device_description(self.physical_spec())
    }

    /// Acquire a device for compute work: load the platform's graphics
    /// library, create an instance, pick the first physical device that
    /// exposes a graphics-capable queue family, and create a logical device
    /// with a single queue of that device's first such family. Whether a
    /// library, a device or a suitable family exists is decided by the
    /// machine; each failure names the step or the missing piece.
    pub fn new_compute() -> (r: Result<Interface, InterfaceError>)
        ensures
            r matches Ok(i) ==> i.wf(),
            r matches Err(e) ==> (e == InterfaceError::LibraryLoad || e
                == InterfaceError::InstanceCreation || e == InterfaceError::EnumerateDevices || e
                == InterfaceError::NoPhysicalDevice || e == InterfaceError::NoGraphicsQueueFamily
                || e == InterfaceError::DeviceCreation),
    {
        let library = match load_library() {
            Ok(l) => l,
            Err(e) => {
                return Err(e);
            },
        };
        let instance = match create_instance(library) {
            Ok(i) => i,
            Err(e) => {
                return Err(e);
            },
        };
        let devices = match enumerate_devices(&instance) {
            Ok(d) => d,
            Err(e) => {
                return Err(e);
            },
        };
        let (physical, queue_family_index) = match select_compute_device(&devices) {
            Ok(p) => p,
            Err(e) => {
                return Err(e);
            },
        };
        let ghost chosen = physical;
        let info = describe_device(&physical);
        let (device, queue) = match create_device_and_queue(physical, queue_family_index) {
            Ok(p) => p,
            Err(e) => {
                return Err(e);
            },
        };
        let memory_allocator = new_memory_allocator(clone_device(&device));
        let command_buffer_allocator = new_command_buffer_allocator(clone_device(&device));
        Ok(
            Interface {
                device,
                queue,
                memory_allocator,
                command_buffer_allocator,
                info,
                queue_family_index,
                physical: Ghost(chosen),
            },
        )
    }

    /// The human-readable description of the selected device.
    pub fn info(&self) -> (r: &str)
        ensures
            r@ == self.info_spec(),
    {
        self.info.as_str()
    }

    /// A shared handle to the owned device.
    pub fn device(&self) -> (r: Arc<Device>)
        ensures
            r == self.device_spec(),
    {
        clone_device(&self.device)
    }

    /// A shared handle to the owned queue.
    pub fn queue(&self) -> (r: Arc<Queue>)
        ensures
            r == self.queue_spec(),
    {
        clone_queue(&self.queue)
    }

    /// Allocate a device-local 2-D storage image of the given dimensions
    /// and format on the owned device. A zero extent is passed through and
    /// rejected by the platform.
    pub fn storage_image(&self, dim: UVec2, format: Format) -> (r: Result<
        Arc<Image>,
        InterfaceError,
    >)
        ensures
            r matches Ok(img) ==> image_extent(img) == extent_of(dim) && image_format(img)
                == format,
            r matches Err(e) ==> e == InterfaceError::ImageAllocation,
    {
        let extent = dim.into_extent();
        create_storage_image(&self.memory_allocator, extent, format)
    }

    /// Allocate a host-visible buffer of `size` zero bytes. The platform
    /// cannot allocate an empty buffer, so a zero size is an allocation
    /// error.
    pub fn cpu_accessible_buffer(&self, size: usize) -> (r: Result<Subbuffer<[u8]>, InterfaceError>)
        ensures
            size == 0 ==> r == Result::<Subbuffer<[u8]>, InterfaceError>::Err(
                InterfaceError::BufferAllocation,
            ),
            r matches Ok(b) ==> subbuffer_len(b) == size && subbuffer_init(b) == Seq::new(
                size as nat,
                |i: int| 0u8,
            ),
            r matches Err(e) ==> e == InterfaceError::BufferAllocation,
    {
        let data = zero_bytes(size);
        self.cpu_accessible_buffer_from(data)
    }

    /// Allocate a host-visible buffer filled with exactly the given bytes.
    /// The platform cannot allocate an empty buffer, so an empty sequence
    /// is an allocation error.
    pub fn cpu_accessible_buffer_from(&self, data: Vec<u8>) -> (r: Result<
        Subbuffer<[u8]>,
        InterfaceError,
    >)
        ensures
            data@.len() == 0 ==> r == Result::<Subbuffer<[u8]>, InterfaceError>::Err(
                InterfaceError::BufferAllocation,
            ),
            r matches Ok(b) ==> subbuffer_len(b) == data@.len() && subbuffer_init(b) == data@,
            r matches Err(e) ==> e == InterfaceError::BufferAllocation,
    {
        if data.len() == 0 {
            return Err(InterfaceError::BufferAllocation);
        }
        create_host_buffer(&self.memory_allocator, data)
    }

    /// Begin recording a single-use command buffer, allocated from the
    /// owned device's allocator and begun for the owned queue's family.
    pub fn auto_command_buffer_builder(&self) -> (r: Result<
        AutoCommandBufferBuilder<PrimaryAutoCommandBuffer>,
        InterfaceError,
    >)
        ensures
            r matches Ok(b) ==> builder_queue_family(b) == self.queue_family_index_spec(),
            r matches Err(e) ==> e == InterfaceError::CommandBufferBegin,
    {
        begin_primary_command_buffer(&self.command_buffer_allocator, self.queue_family_index)
    }
}

} // verus!
