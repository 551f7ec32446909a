//! Loading the driver.
use vstd::prelude::*;

verus! {

/// Asks the host to choose a major number.
pub const ANY_MAJOR: u32 = 0;

/// What is to be done next to load the driver.
#[derive(Clone, Copy, PartialEq, Eq, Structural, Debug)]
pub enum ModuleStep {
    /// Register block devices under a major number, then go on with
    /// [`NvmeModule::blkdev_registered`].
    RegisterBlkdev { major: u32 },
    /// Register the driver, then go on with [`NvmeModule::driver_registered`].
    RegisterDriver,
    /// The driver is loaded.
    Loaded,
    /// The driver cannot be loaded, for the reason `errno`.
    Fail { errno: i32 },
}

/// The driver while it is being loaded.
#[derive(Clone, Copy, PartialEq, Eq, Structural, Debug)]
pub struct NvmeModule {
    /// The major number of the disks.
    pub major: i32,
    pub step: ModuleStep,
}

impl NvmeModule {
    /// Starts to load the driver.
    pub fn init() -> (module: NvmeModule)
        ensures
            module == (NvmeModule {
                major: 0,
                step: ModuleStep::RegisterBlkdev { major: ANY_MAJOR },
            }),
    {
        NvmeModule { major: 0, step: ModuleStep::RegisterBlkdev { major: ANY_MAJOR } }
    }

    /// Goes on with what the host answered for a major number, which is taken as it is.
    pub fn blkdev_registered(&mut self, major: i32)
        requires
            old(self).step is RegisterBlkdev,
        ensures
            *final(self) == (NvmeModule { major, step: ModuleStep::RegisterDriver }),
    {
        self.major = major;
        self.step = ModuleStep::RegisterDriver;
    }

    /// Goes on with what came of the registration of the driver.
    pub fn driver_registered(&mut self, result: Result<(), i32>)
        requires
            old(self).step is RegisterDriver,
        ensures
            final(self).major == old(self).major,
            final(self).step == match result {
                Ok(()) => ModuleStep::Loaded,
                Err(errno) => ModuleStep::Fail { errno },
            },
    {
        self.step = match result {
            Ok(()) => ModuleStep::Loaded,
            Err(errno) => ModuleStep::Fail { errno },
        };
    }
}

/// The driver is loaded in two steps, for which the host is asked in this order: to register block
/// devices under a major number of its choice, and to register the driver. Whatever number the
/// host answers with is the one of the disks, also where the driver could not be registered, which
/// is the one thing that loading fails for, for the reason that the host gives.
pub proof fn law_loading_asks_for_both_registrations(
    start: NvmeModule,
    first: &mut NvmeModule,
    major: i32,
    second: &mut NvmeModule,
    result: Result<(), i32>,
)
    requires
        call_ensures(NvmeModule::init, (), start),
        *old(first) == start,
        call_ensures(NvmeModule::blkdev_registered, (first, major), ()),
        *old(second) == *final(first),
        call_ensures(NvmeModule::driver_registered, (second, result), ()),
    ensures
        start.step == (ModuleStep::RegisterBlkdev { major: 0 }),
        call_requires(NvmeModule::blkdev_registered, (first, major)),
        final(first).step == ModuleStep::RegisterDriver,
        final(first).major == major,
        call_requires(NvmeModule::driver_registered, (second, result)),
        final(second).major == major,
        result is Ok <==> final(second).step == ModuleStep::Loaded,
        result matches Err(errno) ==> final(second).step == (ModuleStep::Fail { errno }),
{
}

} // verus!
