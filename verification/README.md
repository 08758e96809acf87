# lib

Verified register logic of a virtual PCIe root port and of the PCI bridge that
hosts it.

- `src/cap.rs`: the PCI Express capability structure, its construction and its
  byte image.
- `src/root_port.rs`: the slot control and slot status registers, guest reads
  and writes through configuration space, hot-plug and hot-unplug, and the
  decision when the port's interrupt is due.
- `src/bridge.rs`: the bridge's bus address, the configuration register of its
  MSI-X capability, and the routing of BAR accesses.
- `src/laws.rs`: properties across these operations.
- `app/lib.rs`: the devices as the virtual machine sees them; it joins the
  library to the configuration space, the MSI-X state, the resource allocator
  and events, and fires the interrupts that the library decides.
