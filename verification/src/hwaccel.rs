//! Hardware acceleration device types.

use vstd::prelude::*;

verus! {

/// The hardware acceleration device types a codec engine can decode
/// through.
#[derive(Debug, Copy, Clone, PartialEq, Eq, Structural)]
pub enum HardwareAccelerationDeviceType {
    /// Video Decode and Presentation API for Unix (VDPAU)
    Vdpau,
    /// NVIDIA CUDA
    Cuda,
    /// Video Acceleration API (VA-API)
    VaApi,
    /// DirectX Video Acceleration 2.0
    Dxva2,
    /// Quick Sync Video
    Qsv,
    /// VideoToolbox
    VideoToolbox,
    /// Direct3D 11 Video Acceleration
    D3D11Va,
    /// Linux Direct Rendering Manager
    Drm,
    /// OpenCL
    OpenCl,
    /// MediaCodec
    MeiaCodec,
    /// Vulkan
    Vulkan,
    /// Direct3D 12 Video Acceleration
    D3D12Va,
}

impl HardwareAccelerationDeviceType {
    /// The device type a raw device-type number of the engine stands for;
    /// zero is the engine's marker for "no device".
    pub open spec fn spec_from_raw(value: i32) -> Option<HardwareAccelerationDeviceType> {
        if value == 1 {
            Option::Some(HardwareAccelerationDeviceType::Vdpau)
        } else if value == 2 {
            Option::Some(HardwareAccelerationDeviceType::Cuda)
        } else if value == 3 {
            Option::Some(HardwareAccelerationDeviceType::VaApi)
        } else if value == 4 {
            Option::Some(HardwareAccelerationDeviceType::Dxva2)
        } else if value == 5 {
            Option::Some(HardwareAccelerationDeviceType::Qsv)
        } else if value == 6 {
            Option::Some(HardwareAccelerationDeviceType::VideoToolbox)
        } else if value == 7 {
            Option::Some(HardwareAccelerationDeviceType::D3D11Va)
        } else if value == 8 {
            Option::Some(HardwareAccelerationDeviceType::Drm)
        } else if value == 9 {
            Option::Some(HardwareAccelerationDeviceType::OpenCl)
        } else if value == 10 {
            Option::Some(HardwareAccelerationDeviceType::MeiaCodec)
        } else if value == 11 {
            Option::Some(HardwareAccelerationDeviceType::Vulkan)
        } else {
            Option::None
        }
    }

    /// The engine's raw device-type number for this device type.
    pub open spec fn spec_to_raw(self) -> i32 {
        match self {
            HardwareAccelerationDeviceType::Vdpau => 1,
            HardwareAccelerationDeviceType::Cuda => 2,
            HardwareAccelerationDeviceType::VaApi => 3,
            HardwareAccelerationDeviceType::Dxva2 => 4,
            HardwareAccelerationDeviceType::Qsv => 5,
            HardwareAccelerationDeviceType::VideoToolbox => 6,
            HardwareAccelerationDeviceType::D3D11Va => 7,
            HardwareAccelerationDeviceType::Drm => 8,
            HardwareAccelerationDeviceType::OpenCl => 9,
            HardwareAccelerationDeviceType::MeiaCodec => 10,
            HardwareAccelerationDeviceType::Vulkan => 11,
            HardwareAccelerationDeviceType::D3D12Va => 12,
        }
    }

    /// The device type behind a raw device-type number of the engine, or
    /// `None` for the engine's "no device" marker.
    pub fn from(value: i32) -> (r: Option<HardwareAccelerationDeviceType>)
        requires
            0 <= value <= 11,
        ensures
            r == HardwareAccelerationDeviceType::spec_from_raw(value),
    {
        if value == 1 {
            Option::Some(HardwareAccelerationDeviceType::Vdpau)
        } else if value == 2 {
            Option::Some(HardwareAccelerationDeviceType::Cuda)
        } else if value == 3 {
            Option::Some(HardwareAccelerationDeviceType::VaApi)
        } else if value == 4 {
            Option::Some(HardwareAccelerationDeviceType::Dxva2)
        } else if value == 5 {
            Option::Some(HardwareAccelerationDeviceType::Qsv)
        } else if value == 6 {
            Option::Some(HardwareAccelerationDeviceType::VideoToolbox)
        } else if value == 7 {
            Option::Some(HardwareAccelerationDeviceType::D3D11Va)
        } else if value == 8 {
            Option::Some(HardwareAccelerationDeviceType::Drm)
        } else if value == 9 {
            Option::Some(HardwareAccelerationDeviceType::OpenCl)
        } else if value == 10 {
            Option::Some(HardwareAccelerationDeviceType::MeiaCodec)
        } else if value == 11 {
            Option::Some(HardwareAccelerationDeviceType::Vulkan)
        } else {
            Option::None
        }
    }

    /// The engine's raw device-type number for this device type.
    pub fn to_raw(self) -> (r: i32)
        ensures
            r == self.spec_to_raw(),
    {
        match self {
            HardwareAccelerationDeviceType::Vdpau => 1,
            HardwareAccelerationDeviceType::Cuda => 2,
            HardwareAccelerationDeviceType::VaApi => 3,
            HardwareAccelerationDeviceType::Dxva2 => 4,
            HardwareAccelerationDeviceType::Qsv => 5,
            HardwareAccelerationDeviceType::VideoToolbox => 6,
            HardwareAccelerationDeviceType::D3D11Va => 7,
            HardwareAccelerationDeviceType::Drm => 8,
            HardwareAccelerationDeviceType::OpenCl => 9,
            HardwareAccelerationDeviceType::MeiaCodec => 10,
            HardwareAccelerationDeviceType::Vulkan => 11,
            HardwareAccelerationDeviceType::D3D12Va => 12,
        }
    }

    /// Whether this device type occurs in the list of types available on
    /// the running system, as the engine enumerates them.
    pub fn is_available(self, available: &Vec<HardwareAccelerationDeviceType>) -> (r: bool)
        ensures
            r == available@.contains(self),
    {
        let mut i: usize = 0;
        while i < available.len()
            invariant
                i <= available@.len(),
                forall|j: int| 0 <= j < i ==> available@[j] != self,
            decreases available@.len() - i,
        {
            if available[i] == self {
                return true;
            }
            i = i + 1;
        }
        proof {
            assert(!available@.contains(self));
        }
        false
    }
}

} // verus!
