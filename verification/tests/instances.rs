use jlh_maps::instances::allocate_integration_id;
use jlh_maps::instances::{InstanceError, InstanceRegistry};

#[test]
fn commands_reach_a_mounted_instance_in_order() {
    let mut reg: InstanceRegistry<u32> = InstanceRegistry::new();
    assert!(!reg.is_instance_mounted("map-1"));
    reg.register_instance("map-1".to_string());
    assert!(reg.is_instance_mounted("map-1"));
    assert_eq!(reg.enqueue_instance_command("map-1", 1), Ok(()));
    assert_eq!(reg.enqueue_instance_command("map-1", 2), Ok(()));
    assert_eq!(reg.drain_commands("map-1"), vec![1, 2]);
    assert_eq!(reg.drain_commands("map-1"), Vec::<u32>::new());
}

#[test]
fn commands_for_unmounted_instances_are_refused() {
    let mut reg: InstanceRegistry<u32> = InstanceRegistry::new();
    assert_eq!(reg.enqueue_instance_command("ghost", 1), Err(InstanceError::NotMounted("ghost".to_string())));
    reg.register_instance("a".to_string());
    reg.enqueue_instance_command("a", 5).unwrap();
    reg.unregister_instance("a");
    assert!(!reg.is_instance_mounted("a"));
    assert!(reg.enqueue_instance_command("a", 6).is_err());
    assert_eq!(reg.drain_commands("a"), vec![5]);
}

#[test]
fn integration_ids_count_up_and_saturate() {
    assert_eq!(allocate_integration_id(1), (1, 2));
    assert_eq!(allocate_integration_id(0), (0, 1));
    assert_eq!(allocate_integration_id(u32::MAX), (u32::MAX, u32::MAX));
}
