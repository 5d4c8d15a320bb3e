# wasmtime-wasi-usb

A Wasmtime host for `wasi:usb`, through which a WebAssembly guest works with USB devices.

- `src/` holds the rules, verified with Verus: how a guest operation becomes a call to libusb,
  how what libusb returns becomes the answer, what becomes of the guest's resources, how
  transfer buffers are laid out, and which results a finished transfer gives. What holds of the
  library as a whole is stated in `src/laws.rs`.
- `app/` makes the calls to libusb and adds the interfaces to a `Linker`.
- `tests/` runs the rules on concrete values, with the real resource table and channels.

An operation that needs libusb comes in two halves. The first works out the call; the second,
named `.._reply`, takes what the call returned.

What the proofs rest on without proof are the contracts in `src/table.rs` (the resource table of
`wasmtime`) and `src/channel.rs` (the one-shot channel of `tokio`).

## Use

Implement `WasiUsbView` for the state of the host, and add the interfaces to its linker:

```rust
impl WasiUsbView for MyState {
    fn usb(&mut self) -> WasiUsbCtxView<'_> {
        WasiUsbCtxView { ctx: &mut self.usb, table: &mut self.table }
    }
}
```

Create the USB context when initializing your state. Pass `true` or `false` to enable or disable
USB hotplug support:

```rust
let usb_ctx = WasiUsbCtx::new(/* hotplug_enabled: */ true);
```
