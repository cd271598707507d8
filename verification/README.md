# zigbee

A Zigbee stack: the network layer (NWK) and the cluster library (ZCL), with
the clusters Basic, Identify, On/Off and Temperature Measurement, written in
Verus and proved against its contracts.

- `src/` is the verified library. Frames and commands are functions on bytes
  with contracts over their specifications; what a device decides on a
  received frame (relaying, routing, joining, leaving, answering) is a function
  from its state and the frame to its next state and what it sends. Nothing in
  it waits, sleeps or talks to a radio.
- `app/` drives a radio with it: the periodic link status, reception on an end
  device and on a router (which handler a frame goes to is decided in
  `src/`), and the broadcast delivery time, which the stack profile gives in
  floating point.
- `tests/` runs the library on concrete frames, tables and clusters.

Laws proved in `src/`, among others: a frame, a command, a header and a
cluster library value are read back from their own bytes
(`nwk::frame::lemma_frame_roundtrip`, `nwk::commands::roundtrip`,
`nwk::frame::header::lemma_header_roundtrip`, `zcl::roundtrip`); a broadcast
is not taken again within its delivery time
(`nwk::forwarding::lemma_broadcast_taken_once`), and a live record of the
broadcast transaction table survives later updates
(`nwk::forwarding::lemma_seen_kept`); the link status frames list every
neighbor, over overlapping frames
(`nwk::router::lemma_link_status_lists_all`); an attribute
reads what was written (`zcl::cluster::lemma_read_after_write`); toggling
twice restores an On/Off cluster (`clusters::onoff::lemma_toggle_twice`); each
record of a write command gets the status of its check on the attributes as
they were, and an attribute holds the value of the last record that wrote
it (`zcl::cluster::lemma_write_all_laws`, `lemma_undivided_writes_all`); a
channel mask gives back its page and exactly its channels
(`mac::lemma_mask_page`, `mac::lemma_mask_channels`).

The cluster library frame (`zcl::frame::ZclFrame::parse`, `serialize`) and
the commands of every cluster (`zcl::global`) are read and written against
their specifications; each record of those commands reads and writes itself
(`zcl::records`, over the list grammar of `zcl::wire`).

The stack's bounded vector and map (`collections`) keep the behaviour of
the project's own wrappers in their embedded build: a push or an insert
into a full one fails and hands the value back, and the map keeps its
keys in the order they came. They hold their items in std's `Vec`, whose
behaviour the verifier knows; the outside collections that back the
wrappers are generic over their items, and the contents of a generic outside
collection cannot be given the one name per collection that a trusted
specification needs here.

The cluster handlers (`OnOffClusterHandler`, `IdentifyClusterHandler`) are
for the device to implement; their contracts count or record the calls
made on them, so the clusters' contracts say which calls they make.

