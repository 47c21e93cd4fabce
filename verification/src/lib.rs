//! Verified core of the Lineluya kernel: packet formats, the TCP state
//! machine, IPv4 routing, socket bookkeeping, virtual-memory areas,
//! namespaces, overlay layers and small device helpers.

pub mod bytes;
pub mod net_types;
pub mod checksum;
pub mod packets;
pub mod tcp;
pub mod ipv4;
pub mod route;
pub mod socket;
pub mod stack;
pub mod mmap;
pub mod dns;
pub mod dhcp;
pub mod netconf;
pub mod epoll;
pub mod unix_sock;
pub mod sockopt;
pub mod msg;
pub mod ioctl;
pub mod netfilter;
pub mod procnet;
pub mod netops;
pub mod overlay;
pub mod namespaces;
pub mod namespace;
pub mod msi;
pub mod nvme;
pub mod allocator;
pub mod pagetable;
pub mod table_walk;
pub mod page_map;
pub mod cow_fault;
pub mod address_space;
pub mod module;
