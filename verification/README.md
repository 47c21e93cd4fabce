# kernel_chirho

The verified core of a small x86_64 kernel, written in Verus: wire formats
(Ethernet, ARP, IPv4, ICMP, TCP, UDP, DNS, DHCP), the TCP state machine and
retransmission timer, routing, sockets, epoll, AF_UNIX sockets, socket
options, interface ioctls, netfilter hooks, `/proc/net` rows, virtual-memory
areas and `mmap`, page tables (entry decisions for walks, cloning and
retiring; the mapping of a page and the resolution of a copy-on-write fault
as state machines whose orderings are proved over every run; a separate
model of translation over table memory), namespaces, an overlay filesystem, MSI and NVMe
helpers, and the heap's allocation routing.

Layout:

- `src/` — the library; every function carries a contract that Verus proves.
  Functions that would touch hardware or memory directly are split: the
  library decides and builds, the caller performs the I/O and hands back what
  it read.
- `tests/` — tests of the library on concrete values.
- `app/` — the kernel glue around the library: global state behind spin
  locks, raw physical-memory and port access, user-memory copies for the
  system calls, device loops and the heap allocator.
