# proxma

Proxma watches Docker containers and, from their `proxma.*` labels, writes nginx
reverse-proxy configurations, asks certbot for certificates and keeps Cloudflare DNS
records in line.

- `src/` is the library, verified with Verus: label and environment settings, the
  nginx and certificate queues and the decisions taken while working through them,
  the nginx configuration text, domain file names, the certbot command line, the
  ACME check, DNS record content, zone matching and credential choice.
- `app/` is the program around it: the Docker event stream, files, nginx, curl,
  certbot and the Cloudflare API.
- `tests/` runs the library on concrete values.
