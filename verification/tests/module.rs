use rust_nvme::module::{ModuleStep, NvmeModule};

#[test]
fn module_is_loaded() {
    let mut module = NvmeModule::init();
    assert_eq!(module.step, ModuleStep::RegisterBlkdev { major: 0 });
    module.blkdev_registered(259);
    assert_eq!(module.step, ModuleStep::RegisterDriver);
    module.driver_registered(Ok(()));
    assert_eq!(module, NvmeModule { major: 259, step: ModuleStep::Loaded });
}

#[test]
fn refused_driver_ends_loading() {
    let mut module = NvmeModule::init();
    module.blkdev_registered(259);
    module.driver_registered(Err(-16));
    assert_eq!(module, NvmeModule { major: 259, step: ModuleStep::Fail { errno: -16 } });
}

#[test]
fn major_number_is_taken_as_it_is() {
    let mut module = NvmeModule::init();
    module.blkdev_registered(-22);
    assert_eq!(module, NvmeModule { major: -22, step: ModuleStep::RegisterDriver });
}
