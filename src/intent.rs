use vstd::prelude::*;

verus! {

/// A buffer's declared residency and access policy, fixed when it is created.
#[derive(Debug, Clone, Copy, PartialEq, Eq, Structural)]
pub enum Intent {
    /// The buffer lives on the device and is reached from the host only through copies.
    Static,
    /// The buffer may change and is reachable from the host through a mapping.
    Dynamic,
}

/// Which kind of memory an allocation should come from.
#[derive(Debug, Clone, Copy, PartialEq, Eq, Structural)]
pub struct MemoryFilter {
    pub prefer_device: bool,
    pub prefer_host: bool,
    pub host_sequential_write: bool,
    pub host_random_access: bool,
}

/// The ways the device may use an allocation.
#[derive(Debug, Clone, Copy, PartialEq, Eq, Structural)]
pub struct Usage {
    pub transfer_src: bool,
    pub transfer_dst: bool,
    pub uniform_buffer: bool,
    pub storage_buffer: bool,
    pub vertex_buffer: bool,
}

/// Device-local memory that the host never maps.
pub open spec fn device_only() -> MemoryFilter {
    MemoryFilter {
        prefer_device: true,
        prefer_host: false,
        host_sequential_write: false,
        host_random_access: false,
    }
}

/// Device-local memory that the host may map to write front to back.
pub open spec fn device_host_writable() -> MemoryFilter {
    MemoryFilter {
        prefer_device: true,
        prefer_host: false,
        host_sequential_write: true,
        host_random_access: false,
    }
}

/// Host memory that the host may map to read and write anywhere.
pub open spec fn host_random() -> MemoryFilter {
    MemoryFilter {
        prefer_device: false,
        prefer_host: true,
        host_sequential_write: false,
        host_random_access: true,
    }
}

/// A usage set with only the listed flags on.
pub open spec fn usage(
    transfer_src: bool,
    transfer_dst: bool,
    uniform_buffer: bool,
    storage_buffer: bool,
    vertex_buffer: bool,
) -> Usage {
    Usage { transfer_src, transfer_dst, uniform_buffer, storage_buffer, vertex_buffer }
}

/// The memory and usage that a buffer's residency policy asks for.
pub trait BufferStrategy {
    spec fn spec_memory_filter(&self) -> MemoryFilter;

    spec fn spec_buffer_usage(&self) -> Usage;

    fn memory_filter(&self) -> (r: MemoryFilter)
        ensures
            r == self.spec_memory_filter(),
    ;

    fn buffer_usage(&self) -> (r: Usage)
        ensures
            r == self.spec_buffer_usage(),
    ;
}

impl BufferStrategy for Intent {
    /// `Static` prefers device-local memory with no host access; `Dynamic`
    /// prefers device-local memory that the host may write sequentially.
    open spec fn spec_memory_filter(&self) -> MemoryFilter {
        match self {
            Intent::Static => device_only(),
            Intent::Dynamic => device_host_writable(),
        }
    }

    /// `Static` is only a copy source or destination; `Dynamic` is read by
    /// shaders as a uniform input and may also feed vertex input.
    open spec fn spec_buffer_usage(&self) -> Usage {
        match self {
            Intent::Static => usage(true, true, false, false, false),
            Intent::Dynamic => usage(false, false, true, false, true),
        }
    }

    fn memory_filter(&self) -> (r: MemoryFilter) {
        match self {
            Intent::Static => MemoryFilter {
                prefer_device: true,
                prefer_host: false,
                host_sequential_write: false,
                host_random_access: false,
            },
            Intent::Dynamic => MemoryFilter {
                prefer_device: true,
                prefer_host: false,
                host_sequential_write: true,
                host_random_access: false,
            },
        }
    }

    fn buffer_usage(&self) -> (r: Usage) {
        match self {
            Intent::Static => Usage {
                transfer_src: true,
                transfer_dst: true,
                uniform_buffer: false,
                storage_buffer: false,
                vertex_buffer: false,
            },
            Intent::Dynamic => Usage {
                transfer_src: false,
                transfer_dst: false,
                uniform_buffer: true,
                storage_buffer: false,
                vertex_buffer: true,
            },
        }
    }
}

} // verus!
