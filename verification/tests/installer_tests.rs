//! Sandboxes, seccomp profiles and their supervision.

use cognos_hal::clock::Timestamp;
use cognos_hal::installer::isolation::{
    create, CgroupId, IsolationError, NamespaceSet, Sandbox, SandboxConfig, SandboxRegistry,
};
use cognos_hal::installer::runtime::{
    backoff_for, RuntimeError, SandboxHandle, SandboxId, SandboxRuntime, SandboxState,
    MAX_RESTARTS,
};
use cognos_hal::installer::sandbox_installer::{
    Capability, InstallConfig, InstallError, InstallReceipt, PackageRef, PackageSource,
    SandboxInstaller,
};
use cognos_hal::installer::seccomp::{
    default_profile, strict_profile, Action, BpfInsn, SeccompError, SeccompProfile, SyscallNo,
};

fn secs(n: i64) -> Timestamp {
    Timestamp::from_nanos(n * 1_000_000_000)
}

fn package() -> PackageRef {
    PackageRef {
        name: "ripgrep".to_string(),
        version: "14".to_string(),
        source: PackageSource::Apt,
    }
}

fn receipt() -> InstallReceipt {
    InstallReceipt {
        id: 1,
        package: package(),
        version: "14".to_string(),
        installed_files: vec!["/opt/cognos/pkgs/rg".to_string()],
        capabilities_granted: vec![Capability::ReadHome],
        sandbox_id: 7,
        timestamp: secs(0),
    }
}

#[test]
fn backoff_doubles_up_to_sixteen_seconds() {
    let delays: Vec<u64> = (0..7).map(backoff_for).collect();
    assert_eq!(delays, vec![1, 2, 4, 8, 16, 16, 16]);
}

#[test]
fn restarts_end_in_a_lock() {
    let mut r = SandboxRuntime::new();
    let id = SandboxId::from(7);
    assert!(matches!(r.begin_restart(id), Err(RuntimeError::NotFound(7))));
    r.register(SandboxHandle::new(receipt())).unwrap();
    for n in 0..MAX_RESTARTS {
        assert_eq!(r.begin_restart(id).unwrap(), backoff_for(n));
        assert_eq!(r.status(id).unwrap().state, SandboxState::Restarting);
        let e = r.finish_restart_at(id, secs(n as i64)).unwrap_err();
        if n + 1 < MAX_RESTARTS {
            assert!(matches!(e, RuntimeError::StartFailed(7, _)));
        } else {
            assert_eq!(
                e.to_text(),
                "sandbox locked after 5 restarts: 00000000-0000-0000-0000-000000000007"
            );
        }
    }
    assert_eq!(r.status(id).unwrap().state, SandboxState::Locked);
    assert!(matches!(r.start(id), Err(RuntimeError::Locked(5, 7))));
    assert!(matches!(r.begin_restart(id), Err(RuntimeError::Locked(5, 7))));
    assert_eq!(r.forget(id).unwrap().restart_count, 5);
    assert!(r.is_empty());
}

#[test]
fn starting_and_stopping() {
    let mut r = SandboxRuntime::new();
    let id = SandboxId(7);
    assert!(matches!(r.start(id), Err(RuntimeError::NotFound(7))));
    r.register(SandboxHandle::new(receipt())).unwrap();
    assert!(matches!(r.start_at(id, secs(10)), Err(RuntimeError::StartFailed(7, _))));
    assert_eq!(r.status_at(id, secs(12)).unwrap().uptime_nanos, 2_000_000_000);
    assert_eq!(r.status_at(id, secs(9)).unwrap().uptime_nanos, 0);
    assert!(matches!(r.start(id), Err(RuntimeError::AlreadyRunning(7))));
    assert!(matches!(
        r.register(SandboxHandle::new(receipt())),
        Err(RuntimeError::AlreadyRunning(7))
    ));
    assert!(matches!(r.forget(id), Err(RuntimeError::AlreadyRunning(7))));
    r.stop(id).unwrap();
    r.stop(id).unwrap();
    assert_eq!(r.status(id).unwrap().state, SandboxState::Stopped);
    assert_eq!(r.status(id).unwrap().pid, -1);
    assert_eq!(r.ids(), vec![id]);
    assert_eq!(r.len(), 1);
    assert!(r.status(SandboxId(8)).is_none());
    assert_eq!(id.to_text(), "00000000-0000-0000-0000-000000000007");
    assert_eq!(
        RuntimeError::CgroupMissing(7).to_text(),
        "cgroup missing for sandbox 00000000-0000-0000-0000-000000000007"
    );
}

#[test]
fn flags_are_those_of_the_kernel() {
    assert_eq!(NamespaceSet::default().clone_flags(), 0x6c02_0000);
    let all = NamespaceSet { user: true, ..NamespaceSet::default() };
    assert_eq!(all.clone_flags(), 0x7c02_0000);
    let nothing = NamespaceSet {
        mount: false,
        pid: false,
        net: false,
        ipc: false,
        uts: false,
        user: false,
    };
    assert_eq!(nothing.clone_flags(), 0);
}

#[test]
fn sandboxes_are_created_without_a_process() {
    let s = create(SandboxConfig::default()).unwrap();
    assert_eq!(s.pid, -1);
    assert_eq!(s.root_dir, "/var/lib/cognos/sandboxes/default");
    assert!(matches!(s.enter(), Err(IsolationError::NotInSandbox)));
    assert!(s.destroy().is_ok());
    assert_ne!(CgroupId::default(), CgroupId::default());
}

#[test]
fn the_registry_keeps_the_first() {
    let sandbox = |pid: i32| Sandbox {
        pid,
        root_dir: String::new(),
        namespaces: NamespaceSet::default(),
        cgroup: CgroupId(3),
    };
    let mut r = SandboxRegistry::new();
    assert!(r.is_empty());
    r.insert(sandbox(1)).root_dir = "/x".to_string();
    assert_eq!(r.insert(sandbox(2)).pid, 1);
    assert_eq!(r.get(&CgroupId(3)).unwrap().root_dir, "/x");
    assert_eq!(r.len(), 1);
    assert!(r.get(&CgroupId(4)).is_none());
    assert_eq!(
        IsolationError::MountFailed { target: "/a".to_string(), reason: "no".to_string() }
            .to_text(),
        "mount failed at /a: no"
    );
}

#[test]
fn profiles_deny_what_they_name() {
    let d = default_profile();
    assert!(d.denylist.contains_key(&SyscallNo::Mount));
    assert!(!d.denylist.contains_key(&SyscallNo::Fork));
    assert_eq!(d.denylist.len(), 18);
    assert_eq!(d.default, Action::Allow);
    let s = strict_profile();
    assert_eq!(s.denylist.len(), 22);
    assert_eq!(s.default, Action::Deny);
    let mut p = SeccompProfile::empty_deny();
    p.allow(SyscallNo::Bpf).allow(SyscallNo::Fork).deny(SyscallNo::Bpf);
    assert!(p.allowlist.contains_key(&SyscallNo::Fork));
    assert!(!p.allowlist.contains_key(&SyscallNo::Bpf));
    assert!(p.denylist.contains_key(&SyscallNo::Bpf));
    assert_eq!(p.compile().unwrap(), vec![BpfInsn::allow()]);
    assert!(matches!(p.install(), Err(SeccompError::Unsupported)));
    assert_eq!(SyscallNo::KernelModule.name(), "kernel_module");
    assert_eq!(SyscallNo::Bpf.number(), None);
    assert_eq!(Action::Kill.ret_code(), 0x8000_0000);
    assert_eq!(
        SeccompError::Compile("x".to_string()).to_text(),
        "seccomp compile failed: x"
    );
}

#[test]
fn the_installer_refuses_and_reports() {
    let i = SandboxInstaller::new(InstallConfig::default());
    assert_eq!(i.config.target_prefix, "/opt/cognos/pkgs");
    assert_eq!(i.config.fs_roots, vec!["/usr", "/lib", "/etc/resolv.conf"]);
    assert_eq!(
        i.install(package()).unwrap_err().to_text(),
        "sandbox setup failed: install pipeline not implemented in v0"
    );
    assert!(i.uninstall(receipt()).is_err());
    let v = i.verify_at(receipt(), secs(3)).unwrap();
    assert!(v.intact);
    assert_eq!(v.receipt_id, 1);
    assert_eq!(v.capabilities_active, vec![Capability::ReadHome]);
    assert!(SandboxInstaller::load_receipt("/x").is_err());
    assert_eq!(InstallError::DiskFull.to_text(), "disk full on target prefix");
}
