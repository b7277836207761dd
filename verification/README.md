# rusty_rockit

A binding to the Rockchip media platform (video input, video processing,
video encoding, memory buffers and image quality control), built around a
core whose behaviour is stated in contracts and proved.

- `src/` is the verified core. Every platform call is described as a value
  (`call::MpiCall`, `aiq::AiqCall`). Each handle says which calls to make,
  with which arguments and in what order, judges the return codes handed
  back, and keeps the state the handle is in. Multi-call set-ups run as a
  `call::CallSeq` (stop at the first failure) or as step machines
  (`next_call`, then `record` of what the call answered): opening a camera
  (`vi::CameraOpen`), setting an image quality context up and starting it
  (`aiq::AiqOpen`, `aiq::AiqStart`), setting a camera encoder or a simple
  encoder up (`encoder::CameraEncoderSetup`,
  `encoder::SimpleEncoderSetup`) and encoding one frame
  (`encoder::EncodeRun`). A failed set-up says which calls let go what it
  had made (`cleanup_calls`). Letting a handle go is described by its
  `drop_calls`/`release_call`/`disable_call`; a resource shared by several
  handles is let go only by the last of them (`Holders`, and `MpiState`
  for the media system itself).
- `app/` performs those calls through the platform's C interface, owns the
  platform resources (releasing them when dropped) and gives errors their
  messages.
- `tests/` exercises the core on concrete values.
