//! The network-namespace harness that runs the remote-path probe on one Linux host.
//!
//! Topology, all names owned by the harness and refused if they already exist: a bridge
//! `cl-m9-br` (172.30.90.1/24, where the owner relay listens on port 3340) in the root
//! namespace; routers `cl-m9-ra` and `cl-m9-rb` on the bridge (172.30.90.2/24 and
//! 172.30.90.3/24) that masquerade their LANs 10.90.1.0/24 and 10.90.2.0/24; and peers
//! `cl-m9-a` and `cl-m9-b` behind them. The peers first meet through the relay while direct
//! UDP between the routers is dropped; once the client has seen control and data pass over the
//! relay, direct UDP is let through again and the connection may move to the direct path.

use vstd::prelude::*;

verus! {

/// The harness, a bash script to be run as root.
pub const NETNS_SCRIPT: &'static str = r#"#!/usr/bin/env bash
# Remote-path probe over Linux network namespaces.
#
# Topology (all names owned by this script, refused if they already exist):
#
#   root namespace: bridge cl-m9-br 172.30.90.1/24, the owner relay on 172.30.90.1:3340
#   cl-m9-ra: router, ext0 172.30.90.2/24 on the bridge, lan0 10.90.1.1/24, NAT to ext0
#   cl-m9-rb: router, ext0 172.30.90.3/24 on the bridge, lan0 10.90.2.1/24, NAT to ext0
#   cl-m9-a:  peer behind cl-m9-ra, 10.90.1.2/24
#   cl-m9-b:  peer behind cl-m9-rb, 10.90.2.2/24
#
set -euo pipefail

PROBE="${M9_NETWORKING:-m9-networking}"
WORK="$(mktemp -d)"
RENDEZVOUS="$WORK/rendezvous.addr"
CLIENT_OUT="$WORK/client.tsv"
RELAY_URL="http://172.30.90.1:3340"
NAMESPACES=(cl-m9-ra cl-m9-rb cl-m9-a cl-m9-b)
PIDS=()

require_root() {
  if [[ "$(id -u)" -ne 0 ]]; then
    echo "netns probe needs root" >&2
    exit 2
  fi
}

refuse_collisions() {
  local existing
  existing="$(ip netns list | awk '{print $1}')"
  for ns in "${NAMESPACES[@]}"; do
    if grep -qx "$ns" <<<"$existing"; then
      echo "namespace $ns already exists; refusing to touch it" >&2
      exit 2
    fi
  done
  if ip link show cl-m9-br >/dev/null 2>&1; then
    echo "link cl-m9-br already exists; refusing to touch it" >&2
    exit 2
  fi
}

cleanup() {
  for pid in "${PIDS[@]}"; do
    kill "$pid" 2>/dev/null || true
  done
  wait 2>/dev/null || true
  for ns in "${NAMESPACES[@]}"; do
    ip netns delete "$ns" 2>/dev/null || true
  done
  ip link delete cl-m9-br 2>/dev/null || true
  rm -rf "$WORK"
}

make_router() {
  local router="$1" wan="$2" lan="$3" peer="$4" peer_addr="$5"
  ip netns add "$router"
  ip netns add "$peer"

  ip link add "$router-x" type veth peer name ext0 netns "$router"
  ip link set "$router-x" master cl-m9-br up
  ip -n "$router" addr add "$wan" dev ext0
  ip -n "$router" link set ext0 up

  ip -n "$router" link add lan0 type veth peer name eth0 netns "$peer"
  ip -n "$router" addr add "$lan" dev lan0
  ip -n "$router" link set lan0 up
  ip -n "$router" link set lo up
  ip netns exec "$router" sysctl -qw net.ipv4.ip_forward=1
  ip netns exec "$router" nft -f - <<'NFT'
table ip cl_m9_nat {
  chain postrouting {
    type nat hook postrouting priority srcnat; policy accept;
    oifname "ext0" masquerade
  }
}
NFT

  ip -n "$peer" addr add "$peer_addr" dev eth0
  ip -n "$peer" link set eth0 up
  ip -n "$peer" link set lo up
  ip -n "$peer" route add default via "${lan%/*}"
}

close_direct_path() {
  for router in cl-m9-ra cl-m9-rb; do
    ip netns exec "$router" nft -f - <<'NFT'
table ip cl_m9_gate {
  chain forward {
    type filter hook forward priority filter; policy accept;
    ip daddr 172.30.90.1 accept
    ip saddr 172.30.90.0/24 udp drop
    oifname "ext0" ip daddr != 172.30.90.1 udp drop
  }
}
NFT
  done
}

open_direct_path() {
  for router in cl-m9-ra cl-m9-rb; do
    ip netns exec "$router" nft delete table ip cl_m9_gate
  done
}

wait_for_line() {
  local file="$1" line="$2" tries=400
  while (( tries > 0 )); do
    if [[ -f "$file" ]] && grep -qxF "$line" "$file"; then
      return 0
    fi
    sleep 0.05
    tries=$((tries - 1))
  done
  echo "timed out waiting for: $line" >&2
  return 1
}

require_root
refuse_collisions
trap cleanup EXIT INT TERM

ip link add cl-m9-br type bridge
ip addr add 172.30.90.1/24 dev cl-m9-br
ip link set cl-m9-br up

make_router cl-m9-ra 172.30.90.2/24 10.90.1.1/24 cl-m9-a 10.90.1.2/24
make_router cl-m9-rb 172.30.90.3/24 10.90.2.1/24 cl-m9-b 10.90.2.2/24

"$PROBE" netprobe-relay --bind 172.30.90.1:3340 &
PIDS+=("$!")

close_direct_path

ip netns exec cl-m9-a "$PROBE" netprobe-server \
  --rendezvous "$RENDEZVOUS" --relay-url "$RELAY_URL" &
PIDS+=("$!")
ip netns exec cl-m9-b "$PROBE" netprobe-client \
  --rendezvous "$RENDEZVOUS" --relay-url "$RELAY_URL" >"$CLIENT_OUT" &
client_pid="$!"
PIDS+=("$client_pid")

wait_for_line "$CLIENT_OUT" $'phase\trelay_verified'
open_direct_path

wait "$client_pid"
cat "$CLIENT_OUT"
"#;

} // verus!
