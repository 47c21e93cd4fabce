use kernel_chirho::msi::{
    msi_address_chirho, msi_config_from_control_chirho, msi_control_dword_chirho, msi_data_chirho, msi_data_offset_chirho,
    msi_enable_control_chirho,
};
use kernel_chirho::namespace::{
    create_namespace_chirho, unshare_namespaces_chirho, NsProxyChirho, NsTypeChirho, UtsNamespaceChirho,
    CLONE_NEWNET_CHIRHO as NS_NEWNET, CLONE_NEWPID_CHIRHO as NS_NEWPID, CLONE_NEWUTS_CHIRHO as NS_NEWUTS,
};
use kernel_chirho::namespaces::{
    init_namespaces_chirho, sys_setns_chirho, sys_unshare_chirho, NsRegistryChirho, CLONE_NEWIPC_CHIRHO, CLONE_NEWNET_CHIRHO,
    CLONE_NEWPID_CHIRHO, CLONE_NEWUTS_CHIRHO,
};
use kernel_chirho::nvme::{
    capabilities_from_halves_chirho, is_nvme_function_chirho, ready_from_status_chirho, NvmeControllerChirho, NvmeCqeChirho,
    NvmeQueuePairChirho,
};
use kernel_chirho::overlay::{
    create_overlay_chirho, overlay_add_lower_file_chirho, split_path_chirho, LayerEntryChirho, OverlayDataChirho,
    OverlayFileOpsChirho, OverlayFsChirho, OverlayInodeOpsChirho, OverlayOriginChirho, S_IFDIR_CHIRHO, S_IFREG_CHIRHO,
    SEEK_CUR_CHIRHO, SEEK_END_CHIRHO, SEEK_SET_CHIRHO,
};

#[test]
fn test_split_path() {
    assert_eq!(split_path_chirho("/a//b/c/"), vec!["a".to_string(), "b".to_string(), "c".to_string()]);
    assert!(split_path_chirho("/").is_empty());
    assert!(split_path_chirho("").is_empty());
}

#[test]
fn test_overlay_write_lookup_delete() {
    let mut instances: Vec<OverlayFsChirho> = Vec::new();
    let i = create_overlay_chirho(&mut instances);
    assert_eq!(i, 0);
    assert_eq!(overlay_add_lower_file_chirho(&mut instances, 5, "/x", b"x", 0o644), Err(-22));
    assert_eq!(overlay_add_lower_file_chirho(&mut instances, i, "/", b"x", 0o644), Err(-22));
    assert_eq!(overlay_add_lower_file_chirho(&mut instances, i, "/etc/hostname", b"lower", S_IFREG_CHIRHO | 0o644), Ok(()));
    let fs = &mut instances[i];
    let (e, origin) = fs.lookup_chirho("/etc/hostname").unwrap();
    assert_eq!(origin, OverlayOriginChirho::LowerChirho);
    assert_eq!(e.content_chirho, b"lower".to_vec());

    // A write lands in the upper layer and hides the lower file.
    assert_eq!(fs.write_file_chirho("/etc/hostname", b"upper", S_IFREG_CHIRHO | 0o600), Ok(()));
    let (e, origin) = fs.lookup_chirho("/etc/hostname").unwrap();
    assert_eq!(origin, OverlayOriginChirho::UpperChirho);
    assert_eq!(e.content_chirho, b"upper".to_vec());
    assert_eq!(e.size_chirho, 5);
    assert_eq!(fs.write_file_chirho("/", b"z", 0), Err(-22));

    // Deleting leaves a whiteout: the lower file is gone from the view.
    assert_eq!(fs.delete_file_chirho("/etc/hostname"), Ok(()));
    assert!(fs.lookup_chirho("/etc/hostname").is_none());
    assert_eq!(fs.delete_file_chirho(""), Err(-22));
    assert!(fs.lookup_chirho("/nope").is_none());
}

#[test]
fn test_overlay_merged_readdir() {
    let mut instances: Vec<OverlayFsChirho> = Vec::new();
    let i = create_overlay_chirho(&mut instances);
    overlay_add_lower_file_chirho(&mut instances, i, "/d/a", b"1", S_IFREG_CHIRHO).unwrap();
    overlay_add_lower_file_chirho(&mut instances, i, "/d/b", b"2", S_IFREG_CHIRHO).unwrap();
    let fs = &mut instances[i];
    fs.write_file_chirho("/d/c", b"3", S_IFREG_CHIRHO).unwrap();
    fs.write_file_chirho("/d/a", b"11", S_IFREG_CHIRHO | 0o600).unwrap();
    fs.delete_file_chirho("/d/b").unwrap();
    let mut names: Vec<String> = fs.readdir_merged_chirho("/d").into_iter().map(|(n, _)| n).collect();
    names.sort();
    assert_eq!(names, vec!["a".to_string(), "c".to_string()]);
}

#[test]
fn test_layer_entries() {
    let f = LayerEntryChirho::new_file_chirho("f", b"abc", 0o644);
    assert_eq!(f.size_chirho, 3);
    assert!(!f.is_whiteout_chirho);
    let mut d = LayerEntryChirho::new_dir_chirho("d", 0o755);
    assert!(d.children_chirho.is_empty());
    let w = LayerEntryChirho::new_whiteout_chirho("gone");
    assert!(w.is_whiteout_chirho);
    assert_eq!(w.name_chirho, ".wh.gone");
    d.children_chirho.push(f);
    assert!(d.find_child_chirho("f").is_some());
    assert!(d.find_child_chirho("g").is_none());
    d.find_child_mut_chirho("f").unwrap().mode_chirho = 0o600;
    assert_eq!(d.find_child_chirho("f").unwrap().mode_chirho, 0o600);
}

fn file_data(content: &[u8], origin: OverlayOriginChirho) -> OverlayDataChirho {
    OverlayDataChirho {
        path_chirho: "/f".to_string(),
        origin_chirho: origin,
        content_chirho: content.to_vec(),
        children_chirho: Vec::new(),
    }
}

#[test]
fn test_overlay_file_ops() {
    let ops = OverlayFileOpsChirho;
    let d = file_data(b"hello world", OverlayOriginChirho::LowerChirho);
    assert_eq!(ops.read_chirho(&d, 6, 100), (b"world".to_vec(), 11));
    assert_eq!(ops.read_chirho(&d, 0, 5), (b"hello".to_vec(), 5));
    assert_eq!(ops.read_chirho(&d, 50, 5), (Vec::new(), 50));
    let mut w = file_data(b"abc", OverlayOriginChirho::LowerChirho);
    assert_eq!(ops.write_chirho(&mut w, 5, b"XY"), (2, 7));
    assert_eq!(w.content_chirho, b"abc\0\0XY".to_vec());
    assert_eq!(w.origin_chirho, OverlayOriginChirho::UpperChirho);
    assert_eq!(ops.write_chirho(&mut w, 1, b"Q"), (1, 2));
    assert_eq!(w.content_chirho, b"aQc\0\0XY".to_vec());
    assert_eq!(ops.seek_chirho(4, 10, 3, SEEK_SET_CHIRHO), Ok(3));
    assert_eq!(ops.seek_chirho(4, 10, 3, SEEK_CUR_CHIRHO), Ok(7));
    assert_eq!(ops.seek_chirho(4, 10, -2, SEEK_END_CHIRHO), Ok(8));
    assert_eq!(ops.seek_chirho(4, 10, 0, 7), Err(-22));
    assert_eq!(ops.ioctl_chirho(), Err(-38));
    let dir = OverlayDataChirho {
        path_chirho: "/d".to_string(),
        origin_chirho: OverlayOriginChirho::UpperChirho,
        content_chirho: Vec::new(),
        children_chirho: vec![
            ("a".to_string(), 10, S_IFREG_CHIRHO),
            (".wh.b".to_string(), 11, S_IFREG_CHIRHO),
            ("sub".to_string(), 12, S_IFDIR_CHIRHO),
        ],
    };
    assert_eq!(ops.readdir_chirho(&dir), vec![("a".to_string(), 10, 8), ("sub".to_string(), 12, 4)]);
}

#[test]
fn test_overlay_inode_ops() {
    let ops = OverlayInodeOpsChirho;
    let dir = OverlayDataChirho {
        path_chirho: "/d".to_string(),
        origin_chirho: OverlayOriginChirho::UpperChirho,
        content_chirho: Vec::new(),
        children_chirho: vec![("a".to_string(), 10, S_IFREG_CHIRHO), ("a".to_string(), 11, S_IFDIR_CHIRHO)],
    };
    assert_eq!(ops.lookup_chirho(Some(&dir), "a"), Ok((10, S_IFREG_CHIRHO)));
    assert_eq!(ops.lookup_chirho(Some(&dir), "b"), Err(-2));
    assert_eq!(ops.lookup_chirho(None, "a"), Err(-2));
    let mut counter: u64 = 100;
    let (ino, mode, data) = ops.create_chirho(&mut counter, "new", 0o644);
    assert_eq!(ino, 100);
    assert_eq!(counter, 101);
    assert_eq!(mode & S_IFREG_CHIRHO, S_IFREG_CHIRHO);
    assert!(data.content_chirho.is_empty());
    let (ino2, mode2, _) = ops.mkdir_chirho(&mut counter, "dir", 0o755);
    assert_eq!(ino2, 101);
    assert_eq!(mode2 & S_IFDIR_CHIRHO, S_IFDIR_CHIRHO);
}

#[test]
fn test_unshare_then_setns() {
    let mut reg = NsRegistryChirho::new_chirho();
    init_namespaces_chirho(&mut reg);
    assert_eq!(sys_setns_chirho(&reg, 0, CLONE_NEWPID_CHIRHO), 0);
    assert_eq!(sys_setns_chirho(&reg, 1, CLONE_NEWPID_CHIRHO), -22);
    assert_eq!(reg.uts_namespaces_chirho.get(&0).unwrap().hostname_chirho, "lineluya");
    assert_eq!(sys_unshare_chirho(&mut reg, CLONE_NEWPID_CHIRHO | CLONE_NEWNET_CHIRHO | CLONE_NEWIPC_CHIRHO), 0);
    assert_eq!(reg.next_ns_id_chirho, 3);
    assert_eq!(sys_setns_chirho(&reg, 1, CLONE_NEWPID_CHIRHO), 0);
    assert_eq!(sys_setns_chirho(&reg, 2, CLONE_NEWNET_CHIRHO), 0);
    assert_eq!(sys_setns_chirho(&reg, 2, CLONE_NEWPID_CHIRHO), -22);
    assert_eq!(sys_setns_chirho(&reg, 1, CLONE_NEWUTS_CHIRHO), -22);
    assert_eq!(sys_setns_chirho(&reg, 0, 0x1234), -22);
}

#[test]
fn test_unshare_takes_the_last_ids() {
    let mut reg = NsRegistryChirho::new_chirho();
    init_namespaces_chirho(&mut reg);
    reg.next_ns_id_chirho = u64::MAX - 2;
    assert_eq!(sys_unshare_chirho(&mut reg, CLONE_NEWNET_CHIRHO | CLONE_NEWUTS_CHIRHO), 0);
    assert_eq!(reg.next_ns_id_chirho, u64::MAX);
    assert!(reg.net_namespaces_chirho.contains_key(&(u64::MAX - 2)));
    assert!(reg.uts_namespaces_chirho.contains_key(&(u64::MAX - 1)));
    // Flags that make no namespace take no id.
    assert_eq!(sys_unshare_chirho(&mut reg, CLONE_NEWIPC_CHIRHO), 0);
    assert_eq!(reg.next_ns_id_chirho, u64::MAX);
}

#[test]
fn test_namespace_proxy_unshare() {
    let mut counter: u64 = 10;
    assert_eq!(create_namespace_chirho(&mut counter, NsTypeChirho::NetChirho), 10);
    assert_eq!(counter, 11);
    let parent = NsProxyChirho::default();
    let child = unshare_namespaces_chirho(&mut counter, &parent, NS_NEWPID | NS_NEWNET | NS_NEWUTS);
    assert_eq!(child.pid_ns_chirho, 11);
    assert_eq!(child.net_ns_chirho, 12);
    assert_eq!(child.uts_ns_chirho, 13);
    assert_eq!(child.mnt_ns_chirho, 0);
    assert_eq!(child.ipc_ns_chirho, 0);
    assert_eq!(counter, 14);
    let uts = UtsNamespaceChirho::default();
    assert_eq!(uts.sysname_chirho, "Lineluya");
    assert_eq!(uts.machine_chirho, "x86_64");
}

#[test]
fn test_msi_encodings() {
    assert_eq!(msi_address_chirho(3), 0xFEE0_3000);
    assert_eq!(msi_data_chirho(0x41), 0x41);
    assert_eq!(msi_enable_control_chirho(0x00F6), 0x0087);
    assert_eq!(msi_data_offset_chirho(true), 0x0C);
    assert_eq!(msi_data_offset_chirho(false), 0x08);
    // Control word at cap + 2 lives in the upper half of the dword at cap.
    assert_eq!(msi_control_dword_chirho(0x50, 0x1234_0005, 0x0081), (0x50, 0x0081_0005));
    let c = msi_config_from_control_chirho((0, 3, 0), 0x50, 0x0086);
    assert!(c.is_64bit_chirho);
    assert_eq!(c.vectors_capable_chirho, 8);
    assert_eq!(c.cap_offset_chirho, 0x50);
}

#[test]
fn test_nvme_helpers() {
    let cqe = NvmeCqeChirho { result_chirho: 0, reserved_chirho: 0, sq_head_id_chirho: 0, status_cid_chirho: 0x0006_0003 };
    assert!(cqe.phase_chirho());
    assert_eq!(cqe.cid_chirho(), 3);
    let tagged = NvmeCqeChirho { result_chirho: 0, reserved_chirho: 0, sq_head_id_chirho: 0, status_cid_chirho: 0x0001_002A };
    assert_eq!(tagged.cid_chirho(), 0x2A);
    assert_eq!(cqe.status_code_chirho(), 3);
    let c = NvmeControllerChirho::new_chirho(0, 4, 0, 0xFEB0_0000);
    assert_eq!(c.sq_doorbell_offset_chirho(0), 0x1000);
    assert_eq!(c.cq_doorbell_offset_chirho(0), 0x1004);
    assert_eq!(c.sq_doorbell_offset_chirho(1), 0x1008);
    assert!(!c.initialized_chirho);
    let q = NvmeQueuePairChirho::new_chirho(1, 64, 64, 0x10000, 0x20000);
    assert_eq!(q.sq_tail_chirho, 0);
    assert!(q.cq_phase_chirho);
    assert_eq!(capabilities_from_halves_chirho(0x1, 0x2), 0x2_0000_0001);
    assert!(ready_from_status_chirho(0x1));
    assert!(!ready_from_status_chirho(0x2));
    assert!(is_nvme_function_chirho(1, 8, 2));
    assert!(!is_nvme_function_chirho(1, 6, 1));
}
